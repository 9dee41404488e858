//! Plain data handed to and returned by the registry.
use vstd::prelude::*;

verus! {

/// Unit in which the submission fee is paid.
pub const FEE_DENOM: &'static str = "uluna";

/// Largest number of characters in a template's name.
pub const MAX_NAME_LEN: usize = 140;

/// Largest number of characters in a template's formatted string.
pub const MAX_FORMATTED_STR_LEN: usize = 280;

/// An amount of one denomination.
#[derive(Clone, Debug)]
pub struct Coin {
    pub denom: String,
    pub amount: u128,
}

/// Who sent a request, and the funds attached to it.
#[derive(Clone, Debug)]
pub struct MessageInfo {
    pub sender: String,
    pub funds: Vec<Coin>,
}

/// A list of coins as (denomination, amount) pairs.
pub open spec fn coins_view(v: Seq<Coin>) -> Seq<(Seq<char>, u128)> {
    v.map_values(|c: Coin| (c.denom@, c.amount))
}

/// Fee parameters read from the protocol configuration.
#[derive(Clone, Debug)]
pub struct Config {
    /// Exact amount of `FEE_DENOM` that a submission must attach.
    pub template_fee: u128,
    /// Where collected fees are sent.
    pub fee_collector: String,
}

/// The shared counters: the next template id, the next job id and an
/// opaque queue handle. Only `current_template_id` is advanced here.
#[derive(Clone, Copy, Debug, PartialEq, Eq, Structural)]
pub struct State {
    pub current_job_id: u64,
    pub current_template_id: u64,
    pub q: u64,
}

/// Category of the action a template produces.
#[derive(Clone, Copy, Debug, PartialEq, Eq, Structural)]
pub enum TemplateKind {
    Query,
    Msg,
}

/// A stored template. `vars` holds the variable declarations and
/// `condition` the gating expression, each in its structured text form.
#[derive(Clone, Debug)]
pub struct Template {
    pub id: u64,
    pub owner: String,
    pub name: String,
    pub kind: TemplateKind,
    pub msg: String,
    pub formatted_str: String,
    pub vars: Vec<String>,
    pub condition: Option<String>,
}

/// Mathematical model of a `Template`.
pub struct TemplateView {
    pub id: u64,
    pub owner: Seq<char>,
    pub name: Seq<char>,
    pub kind: TemplateKind,
    pub msg: Seq<char>,
    pub formatted_str: Seq<char>,
    pub vars: Seq<Seq<char>>,
    pub condition: Option<Seq<char>>,
}

pub open spec fn strings_view(v: Seq<String>) -> Seq<Seq<char>> {
    v.map_values(|s: String| s@)
}

pub open spec fn opt_string_view(o: Option<String>) -> Option<Seq<char>> {
    match o {
        Some(s) => Some(s@),
        None => None,
    }
}

impl View for Template {
    type V = TemplateView;

    open spec fn view(&self) -> TemplateView {
        TemplateView {
            id: self.id,
            owner: self.owner@,
            name: self.name@,
            kind: self.kind,
            msg: self.msg@,
            formatted_str: self.formatted_str@,
            vars: strings_view(self.vars@),
            condition: opt_string_view(self.condition),
        }
    }
}

/// Copies a list of strings.
pub fn copy_strings(v: &Vec<String>) -> (r: Vec<String>)
    ensures
        strings_view(r@) == strings_view(v@),
{
    let mut r: Vec<String> = Vec::new();
    let mut i: usize = 0;
    while i < v.len()
        invariant
            i <= v@.len(),
            r@.len() == i,
            forall|j: int| 0 <= j < i ==> #[trigger] r@[j]@ == v@[j]@,
        decreases v@.len() - i,
    {
        r.push(v[i].clone());
        i = i + 1;
    }
    assert(strings_view(r@) =~= strings_view(v@));
    r
}

/// Copies an optional string.
pub fn copy_opt_string(o: &Option<String>) -> (r: Option<String>)
    ensures
        opt_string_view(r) == opt_string_view(*o),
{
    match o {
        Some(s) => Some(s.clone()),
        None => None,
    }
}

impl Template {
    /// A copy of the template with the same model.
    pub fn duplicate(&self) -> (r: Template)
        ensures
            r@ == self@,
    {
        Template {
            id: self.id,
            owner: self.owner.clone(),
            name: self.name.clone(),
            kind: self.kind,
            msg: self.msg.clone(),
            formatted_str: self.formatted_str.clone(),
            vars: copy_strings(&self.vars),
            condition: copy_opt_string(&self.condition),
        }
    }
}

/// Request to register a new template.
#[derive(Clone, Debug)]
pub struct SubmitTemplateMsg {
    pub name: String,
    pub kind: TemplateKind,
    pub msg: String,
    pub formatted_str: String,
    pub vars: Vec<String>,
    pub condition: Option<String>,
}

/// Request to rename a template; `None` keeps the current name.
#[derive(Clone, Debug)]
pub struct EditTemplateMsg {
    pub id: u64,
    pub name: Option<String>,
}

/// Request to remove a template.
#[derive(Clone, Debug)]
pub struct DeleteTemplateMsg {
    pub id: u64,
}

/// A transfer that the host is to carry out.
#[derive(Clone, Debug)]
pub struct BankSend {
    pub to_address: String,
    pub amount: Vec<Coin>,
}

/// Why a request was refused.
#[derive(Clone, Copy, Debug, PartialEq, Eq, Structural)]
pub enum ContractError {
    TemplateFeeNotFound,
    AccountDoesNotExist,
    NameTooLong,
    NameTooShort,
    TemplateDoesNotExist,
    Unauthorized,
}

} // verus!
