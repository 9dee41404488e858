//! Properties that relate several registry operations.
use crate::msg::{
    ContractError, DeleteTemplateMsg, EditTemplateMsg, SubmitTemplateMsg, MAX_FORMATTED_STR_LEN,
    MAX_NAME_LEN,
};
use crate::registry::{
    after_delete, after_edit, after_submit, delete_error, edit_error, fee_paid, field_len_error,
    submit_error, submitted_template, wf, RegistryView,
};
use vstd::prelude::*;

verus! {

/// Of two successful submissions in a row, the second gets a strictly
/// larger id, as long as the counter has not reached its largest value.
pub proof fn lemma_submit_ids_increase(
    m: RegistryView,
    s1: Seq<char>,
    f1: Seq<(Seq<char>, u128)>,
    d1: SubmitTemplateMsg,
    s2: Seq<char>,
    f2: Seq<(Seq<char>, u128)>,
    d2: SubmitTemplateMsg,
)
    requires
        m.state.current_template_id < u64::MAX,
        submit_error(m, s1, f1, d1) is None,
        submit_error(after_submit(m, s1, d1), s2, f2, d2) is None,
    ensures
        submitted_template(after_submit(m, s1, d1), s2, d2).id > submitted_template(m, s1, d1).id,
{
}

/// Editing and deleting leave all counters as they were, so an id that
/// was handed out and then deleted is never handed out again: the next
/// submission gets a strictly larger one.
pub proof fn lemma_deleted_id_not_reused(
    m: RegistryView,
    s1: Seq<char>,
    f1: Seq<(Seq<char>, u128)>,
    d1: SubmitTemplateMsg,
    sd: Seq<char>,
    del: DeleteTemplateMsg,
    s2: Seq<char>,
    f2: Seq<(Seq<char>, u128)>,
    d2: SubmitTemplateMsg,
)
    requires
        m.state.current_template_id < u64::MAX,
        submit_error(m, s1, f1, d1) is None,
        del.id == submitted_template(m, s1, d1).id,
        delete_error(after_submit(m, s1, d1), sd, del) is None,
        submit_error(after_delete(after_submit(m, s1, d1), del), s2, f2, d2) is None,
    ensures
        !after_delete(after_submit(m, s1, d1), del).templates.contains_key(del.id),
        submitted_template(after_delete(after_submit(m, s1, d1), del), s2, d2).id > del.id,
{
}

/// Edits and deletions never move the counters.
pub proof fn lemma_counters_kept(m: RegistryView, e: EditTemplateMsg, d: DeleteTemplateMsg)
    ensures
        after_edit(m, e).state == m.state,
        after_delete(m, d).state == m.state,
{
}

/// In a well-formed registry whose counter has not saturated, a submission
/// gets an id that no stored template has.
pub proof fn lemma_submit_id_fresh(
    m: RegistryView,
    sender: Seq<char>,
    data: SubmitTemplateMsg,
)
    requires
        wf(m),
        m.state.current_template_id < u64::MAX,
    ensures
        !m.templates.contains_key(submitted_template(m, sender, data).id),
{
}

/// Successful submissions, edits and deletions keep a registry well formed.
pub proof fn lemma_wf_preserved(
    m: RegistryView,
    sender: Seq<char>,
    funds: Seq<(Seq<char>, u128)>,
    sub: SubmitTemplateMsg,
    e: EditTemplateMsg,
    d: DeleteTemplateMsg,
)
    requires
        wf(m),
    ensures
        submit_error(m, sender, funds, sub) is None ==> wf(after_submit(m, sender, sub)),
        edit_error(m, sender, e) is None ==> wf(after_edit(m, e)),
        delete_error(m, sender, d) is None ==> wf(after_delete(m, d)),
{
    if submit_error(m, sender, funds, sub) is None {
        let m2 = after_submit(m, sender, sub);
        assert forall|k: u64| #[trigger] m2.templates.contains_key(k) implies {
            &&& m2.templates[k].id == k
            &&& (k < m2.state.current_template_id || m2.state.current_template_id == u64::MAX)
            &&& field_len_error(m2.templates[k].name, MAX_NAME_LEN as nat) is None
            &&& field_len_error(m2.templates[k].formatted_str, MAX_FORMATTED_STR_LEN as nat) is None
        } by {
            if k != m.state.current_template_id {
                assert(m.templates.contains_key(k));
            }
        }
    }
    if edit_error(m, sender, e) is None {
        let m2 = after_edit(m, e);
        assert forall|k: u64| #[trigger] m2.templates.contains_key(k) implies {
            &&& m2.templates[k].id == k
            &&& (k < m2.state.current_template_id || m2.state.current_template_id == u64::MAX)
            &&& field_len_error(m2.templates[k].name, MAX_NAME_LEN as nat) is None
            &&& field_len_error(m2.templates[k].formatted_str, MAX_FORMATTED_STR_LEN as nat) is None
        } by {
            assert(m.templates.contains_key(k));
        }
    }
    if delete_error(m, sender, d) is None {
        let m2 = after_delete(m, d);
        assert forall|k: u64| #[trigger] m2.templates.contains_key(k) implies {
            &&& m2.templates[k].id == k
            &&& (k < m2.state.current_template_id || m2.state.current_template_id == u64::MAX)
            &&& field_len_error(m2.templates[k].name, MAX_NAME_LEN as nat) is None
            &&& field_len_error(m2.templates[k].formatted_str, MAX_FORMATTED_STR_LEN as nat) is None
        } by {
            assert(m.templates.contains_key(k));
        }
    }
}

/// A submission without exactly the configured fee in `FEE_DENOM` among
/// its funds fails with `TemplateFeeNotFound`, whatever else it holds.
pub proof fn lemma_fee_required(
    m: RegistryView,
    sender: Seq<char>,
    funds: Seq<(Seq<char>, u128)>,
    data: SubmitTemplateMsg,
)
    requires
        !fee_paid(funds, m.template_fee),
    ensures
        submit_error(m, sender, funds, data) == Some(ContractError::TemplateFeeNotFound),
{
}

/// With the fee paid and the account registered, a name of 141 characters
/// is too long, an empty one too short, and names of 1 and of 140
/// characters pass (the formatted string being in bounds).
pub proof fn lemma_name_bounds(
    m: RegistryView,
    sender: Seq<char>,
    funds: Seq<(Seq<char>, u128)>,
    data: SubmitTemplateMsg,
)
    requires
        fee_paid(funds, m.template_fee),
        m.accounts.contains(sender),
    ensures
        data.name@.len() == 141 ==> submit_error(m, sender, funds, data) == Some(
            ContractError::NameTooLong,
        ),
        data.name@.len() == 0 ==> submit_error(m, sender, funds, data) == Some(
            ContractError::NameTooShort,
        ),
        (data.name@.len() == 1 || data.name@.len() == 140) && 1 <= data.formatted_str@.len()
            <= 280 ==> submit_error(m, sender, funds, data) is None,
{
}

/// An edit by anyone but the owner fails with `Unauthorized`.
pub proof fn lemma_edit_needs_owner(m: RegistryView, sender: Seq<char>, data: EditTemplateMsg)
    requires
        m.templates.contains_key(data.id),
        m.templates[data.id].owner != sender,
    ensures
        edit_error(m, sender, data) == Some(ContractError::Unauthorized),
{
}

/// A successful edit changes the name alone, and without a new name it
/// changes nothing at all.
pub proof fn lemma_edit_keeps_fields(m: RegistryView, sender: Seq<char>, data: EditTemplateMsg)
    requires
        edit_error(m, sender, data) is None,
    ensures
        ({
            let before = m.templates[data.id];
            let after = after_edit(m, data).templates[data.id];
            &&& after.id == before.id
            &&& after.owner == before.owner
            &&& after.kind == before.kind
            &&& after.msg == before.msg
            &&& after.formatted_str == before.formatted_str
            &&& after.vars == before.vars
            &&& after.condition == before.condition
            &&& (data.name is None ==> after == before)
        }),
        data.name is None ==> after_edit(m, data).templates == m.templates,
{
    if data.name is None {
        assert(after_edit(m, data).templates =~= m.templates);
    }
}

/// Deleting an id that is not stored fails with `TemplateDoesNotExist`;
/// after a successful deletion, deleting the same id again fails the same way.
pub proof fn lemma_delete_twice(
    m: RegistryView,
    s1: Seq<char>,
    s2: Seq<char>,
    data: DeleteTemplateMsg,
)
    ensures
        !m.templates.contains_key(data.id) ==> delete_error(m, s1, data) == Some(
            ContractError::TemplateDoesNotExist,
        ),
        delete_error(m, s1, data) is None ==> delete_error(after_delete(m, data), s2, data) == Some(
            ContractError::TemplateDoesNotExist,
        ),
{
}

} // verus!
