use vstd::prelude::*;
use vstd::slice::slice_to_vec;

use crate::error::{ChatError, ValidationFailure};

verus! {

broadcast use vstd::string::to_string_from_display_ensures_for_str;

/// Above this many members a chat must carry a name.
pub const MAX_UNNAMED_MEMBERS: usize = 8;

/// The category of a chat, derived from its name, size and visibility.
#[derive(Clone, Copy, Debug, PartialEq, Eq, Structural)]
pub enum ChatType {
    Single,
    Group,
    PublicChannel,
    PrivateChannel,
}

/// The category that a chat with these properties has.
pub open spec fn chat_type_of(named: bool, count: int, public: bool) -> ChatType {
    if !named {
        if count == 2 {
            ChatType::Single
        } else {
            ChatType::Group
        }
    } else if public {
        ChatType::PublicChannel
    } else {
        ChatType::PrivateChannel
    }
}

impl ChatType {
    /// Derives the category of a chat from whether it has a name, how many
    /// members it has and whether it is public.
    pub fn resolve(name: &Option<String>, count: usize, public: bool) -> (r: ChatType)
        ensures
            r == chat_type_of(name.is_some(), count as int, public),
            name.is_none() && count == 2 ==> r == ChatType::Single,
            name.is_none() && count != 2 ==> r == ChatType::Group,
            name.is_some() && public ==> r == ChatType::PublicChannel,
            name.is_some() && !public ==> r == ChatType::PrivateChannel,
    {
        match name {
            None => {
                if count == 2 {
                    ChatType::Single
                } else {
                    ChatType::Group
                }
            },
            Some(_) => {
                if public {
                    ChatType::PublicChannel
                } else {
                    ChatType::PrivateChannel
                }
            },
        }
    }
}

/// A chat as the store holds it.
#[derive(Clone, Debug, PartialEq, Eq)]
pub struct Chat {
    /// Assigned by the store on creation.
    pub id: i64,
    pub ws_id: i64,
    pub name: Option<String>,
    pub chat_type: ChatType,
    pub members: Vec<i64>,
    /// Creation time, in seconds since the Unix epoch, set by the store.
    pub created_at: i64,
}

/// A chat about to be inserted: every field but those the store assigns.
#[derive(Clone, Debug, PartialEq, Eq)]
pub struct NewChat {
    pub ws_id: i64,
    pub name: Option<String>,
    pub chat_type: ChatType,
    pub members: Vec<i64>,
}

/// A request to create a chat.
#[derive(Clone, Debug, Default)]
pub struct CreateChat {
    pub name: Option<String>,
    pub members: Vec<i64>,
    pub public: bool,
}

/// A request to change a chat. A field left `None` keeps its stored value.
#[derive(Clone, Debug, Default)]
pub struct UpdateChat {
    pub name: Option<String>,
    pub members: Option<Vec<i64>>,
    pub public: Option<bool>,
}

/// The name that an empty string stands for: none.
pub open spec fn name_of(name: &str, r: Option<String>) -> bool {
    if name@.len() == 0 {
        r.is_none()
    } else {
        r.is_some() && r.unwrap()@ == name@
    }
}

fn optional_name(name: &str) -> (r: Option<String>)
    ensures
        name_of(name, r),
{
    if name.is_empty() {
        None
    } else {
        Some(name.to_string())
    }
}

impl CreateChat {
    /// A request for a chat of these members; an empty `name` means none.
    pub fn new(name: &str, members: &[i64], public: bool) -> (r: CreateChat)
        ensures
            name_of(name, r.name),
            r.members@ == members@,
            r.public == public,
    {
        CreateChat { name: optional_name(name), members: slice_to_vec(members), public }
    }
}

impl UpdateChat {
    /// A request that supplies every field; an empty `name` leaves the
    /// stored name as it is.
    pub fn new(name: &str, members: &[i64], public: bool) -> (r: UpdateChat)
        ensures
            name_of(name, r.name),
            r.members.is_some() && r.members.unwrap()@ == members@,
            r.public == Some(public),
    {
        UpdateChat {
            name: optional_name(name),
            members: Some(slice_to_vec(members)),
            public: Some(public),
        }
    }
}

/// The rule that a chat with this shape breaks, checked in order: size,
/// then name, then whether the resolver found one row per supplied id.
pub open spec fn membership_error(named: bool, count: int, found: int) -> Option<ChatError> {
    if count < 2 {
        Some(ChatError::Validation(ValidationFailure::TooFewMembers))
    } else if count > MAX_UNNAMED_MEMBERS && !named {
        Some(ChatError::Validation(ValidationFailure::NameRequired))
    } else if found != count {
        Some(ChatError::Validation(ValidationFailure::UnknownOrDuplicateMembers))
    } else {
        None
    }
}

/// Checks the shape of a member list. `found` is the number of rows the
/// membership resolver returned for the list, which is compared with the
/// list's length as supplied, duplicates included.
pub fn check_members(named: bool, count: usize, found: usize) -> (r: Result<(), ChatError>)
    ensures
        match membership_error(named, count as int, found as int) {
            Some(e) => r == Err::<(), ChatError>(e),
            None => r is Ok,
        },
{
    if count < 2 {
        return Err(ChatError::Validation(ValidationFailure::TooFewMembers));
    }
    if count > MAX_UNNAMED_MEMBERS && !named {
        return Err(ChatError::Validation(ValidationFailure::NameRequired));
    }
    if found != count {
        return Err(ChatError::Validation(ValidationFailure::UnknownOrDuplicateMembers));
    }
    Ok(())
}

/// What creating a chat from `input` in workspace `ws_id` yields, when the
/// membership resolver returned `found` rows for its members.
pub open spec fn create_outcome(input: CreateChat, ws_id: i64, found: usize) -> Result<NewChat, ChatError> {
    match membership_error(input.name.is_some(), input.members@.len() as int, found as int) {
        Some(e) => Err(e),
        None => Ok(
            NewChat {
                ws_id,
                name: input.name,
                chat_type: chat_type_of(input.name.is_some(), input.members@.len() as int, input.public),
                members: input.members,
            },
        ),
    }
}

/// The name after an update: the supplied one, else the stored one.
pub open spec fn updated_name(prev: Chat, input: UpdateChat) -> Option<String> {
    match input.name {
        Some(n) => Some(n),
        None => prev.name,
    }
}

/// The members after an update: the supplied list, else the stored one.
pub open spec fn updated_members(prev: Chat, input: UpdateChat) -> Vec<i64> {
    match input.members {
        Some(m) => m,
        None => prev.members,
    }
}

/// The visibility after an update: the supplied flag, else the stored one.
pub open spec fn updated_public(prev: Chat, input: UpdateChat) -> bool {
    match input.public {
        Some(p) => p,
        None => prev.spec_is_public(),
    }
}

/// What updating the chat `prev` (`None` where no chat has the id) with
/// `input` yields, when the membership resolver returned `found` rows for
/// the members after the update. The category is derived anew from the
/// fields after the update.
pub open spec fn update_outcome(prev: Option<Chat>, input: UpdateChat, ws_id: i64, found: usize) -> Result<Chat, ChatError> {
    match prev {
        None => Err(ChatError::NotFound),
        Some(c) => {
            let name = updated_name(c, input);
            let members = updated_members(c, input);
            match membership_error(name.is_some(), members@.len() as int, found as int) {
                Some(e) => Err(e),
                None => Ok(
                    Chat {
                        id: c.id,
                        ws_id,
                        name,
                        chat_type: chat_type_of(name.is_some(), members@.len() as int, updated_public(c, input)),
                        members,
                        created_at: c.created_at,
                    },
                ),
            }
        },
    }
}

impl Chat {
    /// Whether the chat is a public channel: the visibility that a later
    /// update keeps when it supplies none.
    pub open spec fn spec_is_public(self) -> bool {
        self.chat_type == ChatType::PublicChannel
    }

    /// The chat's invariants: at least two members, a name above eight, and
    /// a category that follows from name, size and visibility.
    pub open spec fn wf(self) -> bool {
        &&& self.members@.len() >= 2
        &&& self.members@.len() > MAX_UNNAMED_MEMBERS ==> self.name.is_some()
        &&& self.chat_type == chat_type_of(self.name.is_some(), self.members@.len() as int, self.spec_is_public())
    }

    pub fn is_public(&self) -> (r: bool)
        ensures
            r == self.spec_is_public(),
    {
        match self.chat_type {
            ChatType::PublicChannel => true,
            _ => false,
        }
    }

    /// Decides a create request: the first rule it breaks, or the row to
    /// insert. `found` is the number of rows the membership resolver returned
    /// for `input.members`.
    pub fn plan_create(input: CreateChat, ws_id: i64, found: usize) -> (r: Result<NewChat, ChatError>)
        ensures
            r == create_outcome(input, ws_id, found),
    {
        let count = input.members.len();
        check_members(input.name.is_some(), count, found)?;
        let chat_type = ChatType::resolve(&input.name, count, input.public);
        Ok(NewChat { ws_id, name: input.name, chat_type, members: input.members })
    }
}

impl Chat {
    /// Decides an update request. `prev` is the stored chat with the id
    /// (`None` where there is none), and `found` the number of rows the
    /// membership resolver returned for the members after the update (see
    /// `UpdateChat::members_to_check`). Returns the first error, or the chat
    /// as it is to be written back: each field of `input` that is `None`
    /// keeps its stored value, the category is derived anew, and the
    /// workspace is `ws_id` as given.
    pub fn plan_update(prev: Option<Chat>, input: UpdateChat, ws_id: i64, found: usize) -> (r: Result<Chat, ChatError>)
        ensures
            r == update_outcome(prev, input, ws_id, found),
    {
        let prev = match prev {
            None => return Err(ChatError::NotFound),
            Some(c) => c,
        };
        let public = match input.public {
            Some(p) => p,
            None => prev.is_public(),
        };
        let name = match input.name {
            Some(n) => Some(n),
            None => prev.name,
        };
        let members = match input.members {
            Some(m) => m,
            None => prev.members,
        };
        let count = members.len();
        check_members(name.is_some(), count, found)?;
        let chat_type = ChatType::resolve(&name, count, public);
        Ok(Chat { id: prev.id, ws_id, name, chat_type, members, created_at: prev.created_at })
    }
}

impl UpdateChat {
    /// The members that the update leaves in `prev`: those whose existence
    /// the membership resolver is to confirm before `Chat::plan_update`.
    pub fn members_to_check<'a>(&'a self, prev: &'a Chat) -> (r: &'a Vec<i64>)
        ensures
            *r == updated_members(*prev, *self),
    {
        match &self.members {
            Some(m) => m,
            None => &prev.members,
        }
    }
}

} // verus!
