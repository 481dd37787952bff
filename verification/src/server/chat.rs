//! Creating chats: what is asked of a new chat, and what kind it becomes.

use crate::error::{lemma_literal_detail, AppError};
use crate::types::{ChatType, RowID};
use vstd::prelude::*;

verus! {

/// What a user sends to create a chat.
#[derive(Debug, Clone)]
pub struct CreateChat {
    pub name: Option<String>,
    pub members: Vec<RowID>,
    pub public: bool,
}

/// What is wrong with a request to create a chat.
#[derive(Debug, Clone, Copy, PartialEq, Eq, Structural)]
pub enum ChatFault {
    /// Fewer than two members.
    TooFewMembers,
    /// More than five members together with a name.
    NamedCrowd,
    /// Not every member is a user.
    UnknownMembers,
}

impl ChatFault {
    /// What the user is told.
    pub open spec fn text(self) -> Seq<char> {
        match self {
            ChatFault::TooFewMembers => "chat must have at least 2 members"@,
            ChatFault::NamedCrowd => "group chat with more than 5 members must have a name"@,
            ChatFault::UnknownMembers => "some members don't exist"@,
        }
    }

    /// What the user is told.
    pub fn message(&self) -> (text: &'static str)
        ensures
            text@ == self.text(),
    {
        match self {
            ChatFault::TooFewMembers => "chat must have at least 2 members",
            ChatFault::NamedCrowd => "group chat with more than 5 members must have a name",
            ChatFault::UnknownMembers => "some members don't exist",
        }
    }

    /// The error that answers the request.
    pub fn into_error(self) -> (e: AppError)
        ensures
            e is InvalidInput,
            e.detail()@ == self.text(),
    {
        let text = self.message();
        let e = AppError::invalid_input(text);
        proof {
            lemma_literal_detail(text, e.detail());
        }
        e
    }
}

/// What is wrong with a request for a chat of `members` members, named or
/// not, before the database is asked: the first of the checks that fails.
pub open spec fn shape_fault(members: nat, named: bool) -> Option<ChatFault> {
    if members < 2 {
        Some(ChatFault::TooFewMembers)
    } else if members > 5 && named {
        Some(ChatFault::NamedCrowd)
    } else {
        None
    }
}

/// The kind of a chat of `members` members, named or not, public or not.
/// Without a name it is a conversation of two or a group; with a name it is a
/// channel.
pub open spec fn kind_of(members: nat, named: bool, public: bool) -> ChatType {
    if named {
        if public {
            ChatType::PublicChannel
        } else {
            ChatType::PrivateChannel
        }
    } else if members == 2 {
        ChatType::Single
    } else {
        ChatType::Group
    }
}

impl CreateChat {
    /// Checks the request before the database is asked about its members.
    pub fn check_shape(&self) -> (out: Result<(), ChatFault>)
        ensures
            match out {
                Ok(_) => shape_fault(self.members@.len(), self.name is Some) is None,
                Err(fault) => shape_fault(self.members@.len(), self.name is Some) == Some(fault),
            },
    {
        if self.members.len() < 2 {
            Err(ChatFault::TooFewMembers)
        } else if self.members.len() > 5 && self.name.is_some() {
            Err(ChatFault::NamedCrowd)
        } else {
            Ok(())
        }
    }

    /// Checks what the database said: `found` is the number of users it has
    /// among the members, which must be all of them.
    pub fn check_members(&self, found: usize) -> (out: Result<(), ChatFault>)
        ensures
            match out {
                Ok(_) => found == self.members@.len(),
                Err(fault) => found != self.members@.len() && fault == ChatFault::UnknownMembers,
            },
    {
        if found != self.members.len() {
            Err(ChatFault::UnknownMembers)
        } else {
            Ok(())
        }
    }

    /// The kind of chat that the request makes.
    pub fn chat_type(&self) -> (out: ChatType)
        ensures
            out == kind_of(self.members@.len(), self.name is Some, self.public),
    {
        if self.name.is_some() {
            if self.public {
                ChatType::PublicChannel
            } else {
                ChatType::PrivateChannel
            }
        } else if self.members.len() == 2 {
            ChatType::Single
        } else {
            ChatType::Group
        }
    }
}

} // verus!
