use vstd::prelude::*;

use crate::chat::{
    chat_type_of, create_outcome, update_outcome, updated_members, updated_name, Chat, CreateChat,
    NewChat, UpdateChat, MAX_UNNAMED_MEMBERS,
};
use crate::error::{ChatError, ValidationFailure};

verus! {

/// A create request with fewer than two members fails with a validation
/// error, whatever its name and visibility.
pub proof fn lemma_create_rejects_too_few_members(input: CreateChat, ws_id: i64, found: usize)
    requires
        input.members@.len() < 2,
    ensures
        create_outcome(input, ws_id, found) == Err::<NewChat, ChatError>(
            ChatError::Validation(ValidationFailure::TooFewMembers),
        ),
{
}

/// A create request with more than eight members and no name fails with a
/// validation error.
pub proof fn lemma_create_requires_name_for_large_groups(input: CreateChat, ws_id: i64, found: usize)
    requires
        input.members@.len() > MAX_UNNAMED_MEMBERS,
        input.name.is_none(),
    ensures
        create_outcome(input, ws_id, found) == Err::<NewChat, ChatError>(
            ChatError::Validation(ValidationFailure::NameRequired),
        ),
{
}

/// A list with an id twice holds fewer distinct ids than entries.
proof fn lemma_duplicates_shrink_set(s: Seq<i64>)
    requires
        !s.no_duplicates(),
    ensures
        s.to_set().len() < s.len(),
{
    s.lemma_cardinality_of_set();
    if s.to_set().len() == s.len() {
        s.lemma_no_dup_set_cardinality();
    }
}

/// A create request whose member list names an id twice fails with a
/// validation error, even where every id exists (the resolver then returns
/// one row per distinct id).
pub proof fn lemma_create_rejects_duplicate_members(input: CreateChat, ws_id: i64, found: usize)
    requires
        !input.members@.no_duplicates(),
        found == input.members@.to_set().len(),
    ensures
        create_outcome(input, ws_id, found) is Err,
        create_outcome(input, ws_id, found)->Err_0 is Validation,
{
    lemma_duplicates_shrink_set(input.members@);
}

/// An update whose member list names an id twice fails with a validation
/// error, even where every id exists.
pub proof fn lemma_update_rejects_duplicate_members(prev: Chat, input: UpdateChat, ws_id: i64, found: usize)
    requires
        !updated_members(prev, input)@.no_duplicates(),
        found == updated_members(prev, input)@.to_set().len(),
    ensures
        update_outcome(Some(prev), input, ws_id, found) is Err,
        update_outcome(Some(prev), input, ws_id, found)->Err_0 is Validation,
{
    lemma_duplicates_shrink_set(updated_members(prev, input)@);
}

/// Every chat that a create stores, whatever id and time the store assigns,
/// and every chat that an update writes back, keeps the chat invariants.
pub proof fn lemma_planned_chats_are_well_formed(
    create: CreateChat,
    update: UpdateChat,
    prev: Option<Chat>,
    ws_id: i64,
    found: usize,
    id: i64,
    created_at: i64,
)
    ensures
        create_outcome(create, ws_id, found) matches Ok(n) ==> (Chat {
            id,
            ws_id: n.ws_id,
            name: n.name,
            chat_type: n.chat_type,
            members: n.members,
            created_at,
        }).wf(),
        update_outcome(prev, update, ws_id, found) matches Ok(c) ==> c.wf(),
{
}

/// An update that supplies neither members nor visibility keeps the members
/// and the category of a named chat.
pub proof fn lemma_name_only_update_keeps_members_and_type(
    prev: Chat,
    input: UpdateChat,
    ws_id: i64,
    found: usize,
)
    requires
        prev.wf(),
        prev.name.is_some(),
        input.members.is_none(),
        input.public.is_none(),
    ensures
        update_outcome(Some(prev), input, ws_id, found) matches Ok(c) ==> c.members == prev.members
            && c.chat_type == prev.chat_type,
{
}

/// An update that supplies members but no visibility derives the category
/// from the stored visibility, not from a default.
pub proof fn lemma_members_update_keeps_stored_visibility(
    prev: Chat,
    input: UpdateChat,
    ws_id: i64,
    found: usize,
)
    requires
        input.members.is_some(),
        input.public.is_none(),
    ensures
        update_outcome(Some(prev), input, ws_id, found) matches Ok(c) ==> c.chat_type == chat_type_of(
            updated_name(prev, input).is_some(),
            input.members.unwrap()@.len() as int,
            prev.spec_is_public(),
        ),
{
}

} // verus!
