//! Payload validation: the rules each payload must meet before it may reach
//! a repository, and the report of those it breaks.

use crate::models::item::{CreateItem, CreateItemView, UpdateItem, UpdateItemView};
use crate::models::warehouse::{
    CreateWarehouse, CreateWarehouseView, UpdateWarehouse, UpdateWarehouseRequest,
    UpdateWarehouseRequestView, UpdateWarehouseView,
};
use validator::{ValidateEmail, ValidateLength};
use vstd::prelude::*;

verus! {

/// A payload field that carries a rule.
#[derive(Debug, Clone, Copy, PartialEq, Eq, Structural)]
pub enum Field {
    WarehouseCode,
    WarehouseName,
    Email,
    Phone,
    ItemCode,
    ItemName,
}

/// A rule a field can break.
#[derive(Debug, Clone, Copy, PartialEq, Eq, Structural)]
pub enum Rule {
    Length,
    Email,
}

/// One broken rule.
#[derive(Debug, Clone, Copy, PartialEq, Eq, Structural)]
pub struct Violation {
    pub field: Field,
    pub rule: Rule,
}

impl Field {
    /// The field's name as callers write it.
    pub open spec fn name_text(self) -> Seq<char> {
        match self {
            Field::WarehouseCode => "warehouse_code"@,
            Field::WarehouseName => "warehouse_name"@,
            Field::Email => "email"@,
            Field::Phone => "phone"@,
            Field::ItemCode => "item_code"@,
            Field::ItemName => "item_name"@,
        }
    }

    /// The field's name as callers write it.
    pub fn name(&self) -> (name: &'static str)
        ensures
            name@ == self.name_text(),
    {
        match self {
            Field::WarehouseCode => "warehouse_code",
            Field::WarehouseName => "warehouse_name",
            Field::Email => "email",
            Field::Phone => "phone",
            Field::ItemCode => "item_code",
            Field::ItemName => "item_name",
        }
    }
}

impl Rule {
    /// The rule's short code.
    pub open spec fn code_text(self) -> Seq<char> {
        match self {
            Rule::Length => "length"@,
            Rule::Email => "email"@,
        }
    }

    /// The rule's short code.
    pub fn code(&self) -> (code: &'static str)
        ensures
            code@ == self.code_text(),
    {
        match self {
            Rule::Length => "length",
            Rule::Email => "email",
        }
    }
}

/// Whether a text is an e-mail address in the sense of the HTML5 living
/// standard, as `validator` decides it.
pub uninterp spec fn email_is_valid(text: Seq<char>) -> bool;

/// Whether a length lies within the bounds that are given.
pub open spec fn length_within(len: nat, min: Option<u64>, max: Option<u64>) -> bool {
    &&& min matches Some(m) ==> m <= len
    &&& max matches Some(m) ==> len <= m
}

/// Whether an optional text, if present, has a length within the bounds.
pub open spec fn opt_length_within(text: Option<Seq<char>>, min: Option<u64>, max: Option<u64>) -> bool {
    text matches Some(t) ==> length_within(t.len(), min, max)
}

/// The verdict on an optional e-mail field: an absent one passes.
pub open spec fn email_verdict(email: Option<Seq<char>>) -> bool {
    email matches Some(e) ==> email_is_valid(e)
}

/// Wraps `validator::ValidateEmail::validate_email` for a `String`: the
/// verdict is a function of the text alone.
#[verifier::external_body]
pub(crate) fn is_email(text: &String) -> (ok: bool)
    ensures
        ok == email_is_valid(text@),
{
    text.validate_email()
}

/// Wraps `validator::ValidateLength::validate_length` for a `String` with no
/// exact length asked: the text's length, counted in characters, must not
/// fall below `min` nor exceed `max`, where they are given.
#[verifier::external_body]
pub(crate) fn has_length(text: &String, min: Option<u64>, max: Option<u64>) -> (ok: bool)
    ensures
        ok == length_within(text@.len(), min, max),
{
    text.validate_length(min, max, None)
}

/// The report of one rule: nothing if it holds, the violation otherwise.
pub open spec fn checked(holds: bool, field: Field, rule: Rule) -> Seq<Violation> {
    if holds {
        Seq::empty()
    } else {
        seq![Violation { field, rule }]
    }
}

/// Adds a violation to `found` if the rule does not hold.
fn check(found: &mut Vec<Violation>, holds: bool, field: Field, rule: Rule)
    ensures
        final(found)@ == old(found)@ + checked(holds, field, rule),
{
    if !holds {
        found.push(Violation { field, rule });
    }
}

/// Whether an optional text, if present, has a length within the bounds.
fn opt_has_length(text: &Option<String>, min: Option<u64>, max: Option<u64>) -> (ok: bool)
    ensures
        ok == opt_length_within(crate::text::opt_string_view(*text), min, max),
{
    match text {
        Some(t) => has_length(t, min, max),
        None => true,
    }
}

/// The verdict of the e-mail rule on an optional field.
fn opt_is_email(text: &Option<String>) -> (ok: bool)
    ensures
        ok == email_verdict(crate::text::opt_string_view(*text)),
{
    match text {
        Some(t) => is_email(t),
        None => true,
    }
}

/// What a validation returns for the violations it found: success for none,
/// the list otherwise.
pub open spec fn outcome_of(result: Result<(), Vec<Violation>>, violations: Seq<Violation>) -> bool {
    match result {
        Ok(_) => violations.len() == 0,
        Err(found) => found@ == violations && violations.len() > 0,
    }
}

/// The violations that a validation's result reports.
pub open spec fn reported(checked: Result<(), Vec<Violation>>) -> Seq<Violation> {
    match checked {
        Ok(_) => Seq::empty(),
        Err(found) => found@,
    }
}

/// What a validation returns is read back as the violations it found.
pub proof fn lemma_reported(checked: Result<(), Vec<Violation>>, violations: Seq<Violation>)
    requires
        outcome_of(checked, violations),
    ensures
        reported(checked) == violations,
{
    assert(reported(checked) =~= violations);
}

fn conclude(found: Vec<Violation>) -> (result: Result<(), Vec<Violation>>)
    ensures
        outcome_of(result, found@),
{
    if found.len() == 0 {
        Ok(())
    } else {
        Err(found)
    }
}

impl CreateWarehouseView {
    /// The rules this payload breaks, in field order, given the verdict on
    /// its e-mail address.
    pub open spec fn violations(self, email_ok: bool) -> Seq<Violation> {
        checked(
            length_within(self.warehouse_code.len(), Some(1), Some(50)),
            Field::WarehouseCode,
            Rule::Length,
        ) + checked(
            length_within(self.warehouse_name.len(), Some(1), Some(255)),
            Field::WarehouseName,
            Rule::Length,
        ) + checked(email_ok, Field::Email, Rule::Email) + checked(
            opt_length_within(self.phone, None, Some(20)),
            Field::Phone,
            Rule::Length,
        )
    }
}

impl CreateWarehouse {
    /// The rules this payload breaks, in field order, given the verdict on
    /// its e-mail address.
    pub fn violations_given(&self, email_ok: bool) -> (found: Vec<Violation>)
        ensures
            found@ == self@.violations(email_ok),
    {
        let mut found: Vec<Violation> = Vec::new();
        check(
            &mut found,
            has_length(&self.warehouse_code, Some(1), Some(50)),
            Field::WarehouseCode,
            Rule::Length,
        );
        check(
            &mut found,
            has_length(&self.warehouse_name, Some(1), Some(255)),
            Field::WarehouseName,
            Rule::Length,
        );
        check(&mut found, email_ok, Field::Email, Rule::Email);
        check(&mut found, opt_has_length(&self.phone, None, Some(20)), Field::Phone, Rule::Length);
        found
    }

    /// Checks the payload: the code holds 1 to 50 characters, the name 1 to
    /// 255, the e-mail address, if any, is one, and the phone number, if any,
    /// holds at most 20 characters.
    pub fn validate(&self) -> (result: Result<(), Vec<Violation>>)
        ensures
            outcome_of(result, self@.violations(email_verdict(self@.email))),
    {
        let email_ok = opt_is_email(&self.email);
        conclude(self.violations_given(email_ok))
    }
}

impl UpdateWarehouseView {
    /// The rules this payload breaks, in field order, given the verdict on
    /// its e-mail address.
    pub open spec fn violations(self, email_ok: bool) -> Seq<Violation> {
        checked(
            opt_length_within(self.warehouse_name, Some(1), Some(255)),
            Field::WarehouseName,
            Rule::Length,
        ) + checked(email_ok, Field::Email, Rule::Email) + checked(
            opt_length_within(self.phone, None, Some(20)),
            Field::Phone,
            Rule::Length,
        )
    }
}

impl UpdateWarehouse {
    /// The rules this payload breaks, in field order, given the verdict on
    /// its e-mail address.
    pub fn violations_given(&self, email_ok: bool) -> (found: Vec<Violation>)
        ensures
            found@ == self@.violations(email_ok),
    {
        let mut found: Vec<Violation> = Vec::new();
        check(
            &mut found,
            opt_has_length(&self.warehouse_name, Some(1), Some(255)),
            Field::WarehouseName,
            Rule::Length,
        );
        check(&mut found, email_ok, Field::Email, Rule::Email);
        check(&mut found, opt_has_length(&self.phone, None, Some(20)), Field::Phone, Rule::Length);
        found
    }

    /// Checks the payload: each rule binds only a field that is present. The
    /// name holds 1 to 255 characters, the e-mail address is one, and the
    /// phone number holds at most 20 characters.
    pub fn validate(&self) -> (result: Result<(), Vec<Violation>>)
        ensures
            outcome_of(result, self@.violations(email_verdict(self@.email))),
    {
        let email_ok = opt_is_email(&self.email);
        conclude(self.violations_given(email_ok))
    }
}

impl UpdateWarehouseRequestView {
    /// The rules this payload breaks, in field order.
    pub open spec fn violations(self) -> Seq<Violation> {
        checked(
            opt_length_within(self.warehouse_code, Some(1), Some(50)),
            Field::WarehouseCode,
            Rule::Length,
        ) + checked(
            opt_length_within(self.warehouse_name, Some(1), Some(255)),
            Field::WarehouseName,
            Rule::Length,
        )
    }
}

impl UpdateWarehouseRequest {
    /// Checks the payload: the code, if present, holds 1 to 50 characters and
    /// the name, if present, 1 to 255.
    pub fn validate(&self) -> (result: Result<(), Vec<Violation>>)
        ensures
            outcome_of(result, self@.violations()),
    {
        let mut found: Vec<Violation> = Vec::new();
        check(
            &mut found,
            opt_has_length(&self.warehouse_code, Some(1), Some(50)),
            Field::WarehouseCode,
            Rule::Length,
        );
        check(
            &mut found,
            opt_has_length(&self.warehouse_name, Some(1), Some(255)),
            Field::WarehouseName,
            Rule::Length,
        );
        conclude(found)
    }
}

impl CreateItemView {
    /// The rules this payload breaks, in field order.
    pub open spec fn violations(self) -> Seq<Violation> {
        checked(
            length_within(self.item_code.len(), Some(1), Some(100)),
            Field::ItemCode,
            Rule::Length,
        ) + checked(
            length_within(self.item_name.len(), Some(1), Some(255)),
            Field::ItemName,
            Rule::Length,
        )
    }
}

impl CreateItem {
    /// Checks the payload: the code holds 1 to 100 characters and the name 1
    /// to 255.
    pub fn validate(&self) -> (result: Result<(), Vec<Violation>>)
        ensures
            outcome_of(result, self@.violations()),
    {
        let mut found: Vec<Violation> = Vec::new();
        check(
            &mut found,
            has_length(&self.item_code, Some(1), Some(100)),
            Field::ItemCode,
            Rule::Length,
        );
        check(
            &mut found,
            has_length(&self.item_name, Some(1), Some(255)),
            Field::ItemName,
            Rule::Length,
        );
        conclude(found)
    }
}

impl UpdateItemView {
    /// The rules this payload breaks.
    pub open spec fn violations(self) -> Seq<Violation> {
        checked(
            opt_length_within(self.item_name, Some(1), Some(255)),
            Field::ItemName,
            Rule::Length,
        )
    }
}

impl UpdateItem {
    /// Checks the payload: the name, if present, holds 1 to 255 characters.
    pub fn validate(&self) -> (result: Result<(), Vec<Violation>>)
        ensures
            outcome_of(result, self@.violations()),
    {
        let mut found: Vec<Violation> = Vec::new();
        check(
            &mut found,
            opt_has_length(&self.item_name, Some(1), Some(255)),
            Field::ItemName,
            Rule::Length,
        );
        conclude(found)
    }
}

/// The line that reports one violation.
pub open spec fn violation_line(violation: Violation) -> Seq<char> {
    violation.field.name_text() + ": "@ + violation.rule.code_text()
}

/// The report of the first `n` violations, one per line.
pub open spec fn described(violations: Seq<Violation>, n: nat) -> Seq<char>
    decreases n,
{
    if n == 0 {
        Seq::empty()
    } else if n == 1 {
        violation_line(violations[0])
    } else {
        described(violations, (n - 1) as nat) + "\n"@ + violation_line(violations[n - 1])
    }
}

/// Renders violations for a caller: one line each, the field's name, a
/// colon and the rule's code.
pub fn describe(violations: &Vec<Violation>) -> (report: String)
    ensures
        report@ == described(violations@, violations@.len()),
{
    let mut report = String::new();
    let mut i: usize = 0;
    while i < violations.len()
        invariant
            i <= violations.len(),
            report@ == described(violations@, i as nat),
        decreases violations.len() - i,
    {
        if i > 0 {
            report.append("\n");
        }
        report.append(violations[i].field.name());
        report.append(": ");
        report.append(violations[i].rule.code());
        i += 1;
        assert(report@ == described(violations@, i as nat));
    }
    report
}

} // verus!
