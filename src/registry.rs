//! The template store and the operations on it.
use crate::msg::{
    coins_view, opt_string_view, strings_view, BankSend, Coin, Config, ContractError,
    DeleteTemplateMsg, EditTemplateMsg, MessageInfo, State, SubmitTemplateMsg, Template,
    TemplateView, FEE_DENOM, MAX_FORMATTED_STR_LEN, MAX_NAME_LEN,
};
use std::collections::HashMap;
use vstd::prelude::*;
use vstd::string::StrSliceExecFns;

verus! {

broadcast use vstd::std_specs::hash::group_hash_axioms;

/// Everything the operations read or write: the fee configuration, the
/// shared counters, the registered accounts and the templates by id.
pub struct Registry {
    pub config: Config,
    pub state: State,
    pub accounts: Vec<String>,
    pub templates: HashMap<u64, Template>,
}

/// Mathematical model of a `Registry`.
pub struct RegistryView {
    pub template_fee: u128,
    pub fee_collector: Seq<char>,
    pub state: State,
    pub accounts: Seq<Seq<char>>,
    pub templates: Map<u64, TemplateView>,
}

impl View for Registry {
    type V = RegistryView;

    open spec fn view(&self) -> RegistryView {
        RegistryView {
            template_fee: self.config.template_fee,
            fee_collector: self.config.fee_collector@,
            state: self.state,
            accounts: strings_view(self.accounts@),
            templates: self.templates@.map_values(|t: Template| t@),
        }
    }
}

/// Every stored template sits under its own id, below the counter (unless
/// the counter has saturated), with a name and formatted string in bounds.
pub open spec fn wf(m: RegistryView) -> bool {
    forall|k: u64| #[trigger]
        m.templates.contains_key(k) ==> {
            &&& m.templates[k].id == k
            &&& (k < m.state.current_template_id || m.state.current_template_id == u64::MAX)
            &&& field_len_error(m.templates[k].name, MAX_NAME_LEN as nat) is None
            &&& field_len_error(m.templates[k].formatted_str, MAX_FORMATTED_STR_LEN as nat) is None
        }
}

/// The funds hold exactly `fee` of `FEE_DENOM` as one of their entries.
pub open spec fn fee_paid(funds: Seq<(Seq<char>, u128)>, fee: u128) -> bool {
    exists|i: int| 0 <= i < funds.len() && #[trigger] funds[i] == (FEE_DENOM@, fee)
}

/// The error for a name or formatted string of the given bound, if any.
pub open spec fn field_len_error(s: Seq<char>, max: nat) -> Option<ContractError> {
    if s.len() > max {
        Some(ContractError::NameTooLong)
    } else if s.len() == 0 {
        Some(ContractError::NameTooShort)
    } else {
        None
    }
}

/// The counter after one step: one more, stopping at the largest value.
pub open spec fn next_id(id: u64) -> u64 {
    if id == u64::MAX {
        id
    } else {
        (id + 1) as u64
    }
}

/// The first check that a submission fails, in the order they are made.
pub open spec fn submit_error(
    m: RegistryView,
    sender: Seq<char>,
    funds: Seq<(Seq<char>, u128)>,
    data: SubmitTemplateMsg,
) -> Option<ContractError> {
    if !fee_paid(funds, m.template_fee) {
        Some(ContractError::TemplateFeeNotFound)
    } else if !m.accounts.contains(sender) {
        Some(ContractError::AccountDoesNotExist)
    } else if field_len_error(data.name@, MAX_NAME_LEN as nat) is Some {
        field_len_error(data.name@, MAX_NAME_LEN as nat)
    } else {
        field_len_error(data.formatted_str@, MAX_FORMATTED_STR_LEN as nat)
    }
}

/// The template that a successful submission stores.
pub open spec fn submitted_template(
    m: RegistryView,
    sender: Seq<char>,
    data: SubmitTemplateMsg,
) -> TemplateView {
    TemplateView {
        id: m.state.current_template_id,
        owner: sender,
        name: data.name@,
        kind: data.kind,
        msg: data.msg@,
        formatted_str: data.formatted_str@,
        vars: strings_view(data.vars@),
        condition: opt_string_view(data.condition),
    }
}

/// The registry after a successful submission: the template stored under
/// the current id and only the template counter advanced.
pub open spec fn after_submit(
    m: RegistryView,
    sender: Seq<char>,
    data: SubmitTemplateMsg,
) -> RegistryView {
    RegistryView {
        state: State {
            current_template_id: next_id(m.state.current_template_id),
            ..m.state
        },
        templates: m.templates.insert(
            m.state.current_template_id,
            submitted_template(m, sender, data),
        ),
        ..m
    }
}

/// `send` moves exactly the configured fee to the fee collector.
pub open spec fn is_fee_transfer(send: BankSend, m: RegistryView) -> bool {
    &&& send.to_address@ == m.fee_collector
    &&& coins_view(send.amount@) == seq![(FEE_DENOM@, m.template_fee)]
}

/// The first check that an edit fails, in the order they are made.
pub open spec fn edit_error(
    m: RegistryView,
    sender: Seq<char>,
    data: EditTemplateMsg,
) -> Option<ContractError> {
    if !m.templates.contains_key(data.id) {
        Some(ContractError::TemplateDoesNotExist)
    } else if m.templates[data.id].owner != sender {
        Some(ContractError::Unauthorized)
    } else {
        match data.name {
            Some(n) => field_len_error(n@, MAX_NAME_LEN as nat),
            None => None,
        }
    }
}

/// `t` with its name replaced by `name`, if one is given.
pub open spec fn renamed(t: TemplateView, name: Option<String>) -> TemplateView {
    match name {
        Some(n) => TemplateView { name: n@, ..t },
        None => t,
    }
}

/// The registry after a successful edit.
pub open spec fn after_edit(m: RegistryView, data: EditTemplateMsg) -> RegistryView {
    RegistryView {
        templates: m.templates.insert(data.id, renamed(m.templates[data.id], data.name)),
        ..m
    }
}

/// The first check that a deletion fails, in the order they are made.
pub open spec fn delete_error(
    m: RegistryView,
    sender: Seq<char>,
    data: DeleteTemplateMsg,
) -> Option<ContractError> {
    if !m.templates.contains_key(data.id) {
        Some(ContractError::TemplateDoesNotExist)
    } else if m.templates[data.id].owner != sender {
        Some(ContractError::Unauthorized)
    } else {
        None
    }
}

/// The registry after a successful deletion.
pub open spec fn after_delete(m: RegistryView, data: DeleteTemplateMsg) -> RegistryView {
    RegistryView { templates: m.templates.remove(data.id), ..m }
}

/// Whether the funds hold exactly `fee` of `FEE_DENOM`.
pub fn has_fee(funds: &Vec<Coin>, fee: u128) -> (r: bool)
    ensures
        r == fee_paid(coins_view(funds@), fee),
{
    let denom = FEE_DENOM.to_string();
    let mut i: usize = 0;
    while i < funds.len()
        invariant
            i <= funds@.len(),
            denom@ == FEE_DENOM@,
            forall|j: int| 0 <= j < i ==> #[trigger] coins_view(funds@)[j] != (FEE_DENOM@, fee),
        decreases funds@.len() - i,
    {
        if funds[i].amount == fee && funds[i].denom == denom {
            assert(coins_view(funds@)[i as int] == (FEE_DENOM@, fee));
            return true;
        }
        i = i + 1;
    }
    false
}

/// Whether `who` is among the registered accounts.
pub fn has_account(accounts: &Vec<String>, who: &String) -> (r: bool)
    ensures
        r == strings_view(accounts@).contains(who@),
{
    let mut i: usize = 0;
    while i < accounts.len()
        invariant
            i <= accounts@.len(),
            forall|j: int| 0 <= j < i ==> #[trigger] strings_view(accounts@)[j] != who@,
        decreases accounts@.len() - i,
    {
        if accounts[i] == *who {
            assert(strings_view(accounts@)[i as int] == who@);
            return true;
        }
        i = i + 1;
    }
    false
}

/// Checks that `s` has between one and `max` characters.
pub fn check_len(s: &String, max: usize) -> (r: Result<(), ContractError>)
    ensures
        match field_len_error(s@, max as nat) {
            Some(e) => r == Err::<(), ContractError>(e),
            None => r is Ok,
        },
{
    let n = s.as_str().unicode_len();
    if n > max {
        Err(ContractError::NameTooLong)
    } else if n == 0 {
        Err(ContractError::NameTooShort)
    } else {
        Ok(())
    }
}

/// Registers a new template for `info.sender`, who must have attached
/// exactly the configured fee and hold an account. On success the template
/// is stored under the current id, the template counter advances by one
/// (saturating), and a transfer of the fee to the collector is returned.
/// On failure nothing changes.
pub fn submit_template(
    deps: &mut Registry,
    info: &MessageInfo,
    data: SubmitTemplateMsg,
) -> (r: Result<(Template, BankSend), ContractError>)
    ensures
        match r {
            Ok((t, send)) => {
                &&& submit_error(old(deps)@, info.sender@, coins_view(info.funds@), data) is None
                &&& t@ == submitted_template(old(deps)@, info.sender@, data)
                &&& final(deps)@ == after_submit(old(deps)@, info.sender@, data)
                &&& is_fee_transfer(send, old(deps)@)
            },
            Err(e) => {
                &&& submit_error(old(deps)@, info.sender@, coins_view(info.funds@), data) == Some(e)
                &&& final(deps)@ == old(deps)@
            },
        },
{
    if !has_fee(&info.funds, deps.config.template_fee) {
        return Err(ContractError::TemplateFeeNotFound);
    }
    if !has_account(&deps.accounts, &info.sender) {
        return Err(ContractError::AccountDoesNotExist);
    }
    match check_len(&data.name, MAX_NAME_LEN) {
        Err(e) => return Err(e),
        Ok(()) => {},
    }
    match check_len(&data.formatted_str, MAX_FORMATTED_STR_LEN) {
        Err(e) => return Err(e),
        Ok(()) => {},
    }
    match check_vars(&data) {
        Err(e) => return Err(e),
        Ok(()) => {},
    }

    let id = deps.state.current_template_id;
    let template = Template {
        id,
        owner: info.sender.clone(),
        name: data.name,
        kind: data.kind,
        msg: data.msg,
        formatted_str: data.formatted_str,
        vars: data.vars,
        condition: data.condition,
    };
    let out = template.duplicate();
    let ghost before = deps.templates@;
    deps.templates.insert(id, template);
    assert(deps.templates@.map_values(|t: Template| t@) =~= before.map_values(
        |t: Template| t@,
    ).insert(id, out@));
    deps.state = State {
        current_job_id: deps.state.current_job_id,
        current_template_id: deps.state.current_template_id.saturating_add(1),
        q: deps.state.q,
    };
    let send = BankSend {
        to_address: deps.config.fee_collector.clone(),
        amount: vec![Coin { denom: FEE_DENOM.to_string(), amount: deps.config.template_fee }],
    };
    assert(coins_view(send.amount@) =~= seq![(FEE_DENOM@, deps.config.template_fee)]);
    Ok((out, send))
}

/// Hook for checking `vars` against the references in `msg`,
/// `formatted_str` and `condition`. No such check is made yet, so it
/// accepts every submission.
pub fn check_vars(_data: &SubmitTemplateMsg) -> (r: Result<(), ContractError>)
    ensures
        r is Ok,
{
    Ok(())
}

/// Renames template `data.id` when `info.sender` owns it; `None` keeps the
/// name. Every other field is carried over. Returns the stored template.
/// On failure nothing changes.
pub fn edit_template(
    deps: &mut Registry,
    info: &MessageInfo,
    data: EditTemplateMsg,
) -> (r: Result<Template, ContractError>)
    ensures
        match r {
            Ok(t) => {
                &&& edit_error(old(deps)@, info.sender@, data) is None
                &&& t@ == renamed(old(deps)@.templates[data.id], data.name)
                &&& final(deps)@ == after_edit(old(deps)@, data)
            },
            Err(e) => {
                &&& edit_error(old(deps)@, info.sender@, data) == Some(e)
                &&& final(deps)@ == old(deps)@
            },
        },
{
    let id = data.id;
    match deps.templates.get(&id) {
        None => return Err(ContractError::TemplateDoesNotExist),
        Some(t) => {
            if !(info.sender == t.owner) {
                return Err(ContractError::Unauthorized);
            }
        },
    }
    match &data.name {
        Some(n) => match check_len(n, MAX_NAME_LEN) {
            Err(e) => return Err(e),
            Ok(()) => {},
        },
        None => {},
    }
    let ghost before = deps.templates@;
    match deps.templates.remove(&id) {
        None => Err(ContractError::TemplateDoesNotExist),
        Some(t) => {
            let name = match data.name {
                Some(n) => n,
                None => t.name,
            };
            let updated = Template {
                id: t.id,
                owner: t.owner,
                name,
                kind: t.kind,
                msg: t.msg,
                formatted_str: t.formatted_str,
                vars: t.vars,
                condition: t.condition,
            };
            let out = updated.duplicate();
            deps.templates.insert(id, updated);
            assert(deps.templates@.map_values(|t: Template| t@) =~= before.map_values(
                |t: Template| t@,
            ).insert(id, out@));
            Ok(out)
        },
    }
}

/// Removes template `data.id` when `info.sender` owns it and returns its
/// id. The id is never handed out again. On failure nothing changes.
pub fn delete_template(
    deps: &mut Registry,
    info: &MessageInfo,
    data: DeleteTemplateMsg,
) -> (r: Result<u64, ContractError>)
    ensures
        match r {
            Ok(id) => {
                &&& delete_error(old(deps)@, info.sender@, data) is None
                &&& id == data.id
                &&& final(deps)@ == after_delete(old(deps)@, data)
            },
            Err(e) => {
                &&& delete_error(old(deps)@, info.sender@, data) == Some(e)
                &&& final(deps)@ == old(deps)@
            },
        },
{
    let id = data.id;
    match deps.templates.get(&id) {
        None => return Err(ContractError::TemplateDoesNotExist),
        Some(t) => {
            if !(info.sender == t.owner) {
                return Err(ContractError::Unauthorized);
            }
        },
    }
    let ghost before = deps.templates@;
    deps.templates.remove(&id);
    assert(deps.templates@.map_values(|t: Template| t@) =~= before.map_values(
        |t: Template| t@,
    ).remove(id));
    Ok(id)
}

impl Registry {
    /// An empty registry with the given fee configuration and counters.
    pub fn new(config: Config, state: State) -> (r: Registry)
        ensures
            r@.template_fee == config.template_fee,
            r@.fee_collector == config.fee_collector@,
            r@.state == state,
            r@.accounts == Seq::<Seq<char>>::empty(),
            r@.templates == Map::<u64, TemplateView>::empty(),
            wf(r@),
    {
        let r = Registry { config, state, accounts: Vec::new(), templates: HashMap::new() };
        assert(r@.accounts =~= Seq::<Seq<char>>::empty());
        assert(r@.templates =~= Map::<u64, TemplateView>::empty());
        r
    }

    /// Records `account` as registered.
    pub fn register_account(&mut self, account: String)
        ensures
            final(self)@ == (RegistryView {
                accounts: old(self)@.accounts.push(account@),
                ..old(self)@
            }),
    {
        let ghost before = self.accounts@;
        self.accounts.push(account);
        assert(strings_view(self.accounts@) =~= strings_view(before).push(self.accounts@.last()@));
    }

    /// The template stored under `id`, if any.
    pub fn template(&self, id: u64) -> (r: Option<&Template>)
        ensures
            match r {
                Some(t) => self@.templates.contains_key(id) && t@ == self@.templates[id],
                None => !self@.templates.contains_key(id),
            },
    {
        self.templates.get(&id)
    }

    /// The shared counters.
    pub fn state(&self) -> (r: State)
        ensures
            r == self@.state,
    {
        self.state
    }
}

} // verus!
