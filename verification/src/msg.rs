use vstd::prelude::*;

use crate::state::AdminListView;

verus! {

/// A `(key, value)` tag attached to an operation's response, describing what
/// was done.
#[derive(Debug, PartialEq, Eq, Clone)]
pub struct Attribute {
    pub key: String,
    pub value: String,
}

/// What a successful operation hands back to the host: the opaque commands to
/// carry out, in order, and the tags describing the action taken.
#[derive(Debug)]
pub struct Response<C> {
    pub messages: Vec<C>,
    pub attributes: Vec<Attribute>,
}

impl<C> Response<C> {
    /// An empty response: no commands, no tags.
    pub fn new() -> (r: Response<C>)
        ensures
            r.messages@.len() == 0,
            r.attributes@.len() == 0,
    {
        Response { messages: Vec::new(), attributes: Vec::new() }
    }

    /// Appends `msgs`, in order, to the commands the host is asked to carry
    /// out; the library never inspects them.
    pub fn add_messages(self, msgs: Vec<C>) -> (r: Response<C>)
        ensures
            r.messages@ == self.messages@ + msgs@,
            r.attributes@ == self.attributes@,
    {
        let mut messages = self.messages;
        let mut tail = msgs;
        messages.append(&mut tail);
        Response { messages, attributes: self.attributes }
    }

    /// Appends one `(key, value)` tag.
    pub fn add_attribute(self, key: &str, value: &str) -> (r: Response<C>)
        ensures
            r.messages@ == self.messages@,
            r.attributes@.len() == self.attributes@.len() + 1,
            r.attributes@[self.attributes@.len() as int].key@ == key@,
            r.attributes@[self.attributes@.len() as int].value@ == value@,
            forall|i: int|
                0 <= i < self.attributes@.len() ==> r.attributes@[i] == self.attributes@[i],
    {
        let mut attributes = self.attributes;
        attributes.push(Attribute { key: key.to_owned(), value: value.to_owned() });
        Response { messages: self.messages, attributes }
    }
}

/// The answer to QueryAdminList: the stored admins, in stored order, and the
/// mutability flag.
#[derive(Debug, PartialEq, Eq, Clone)]
pub struct AdminListResponse {
    pub admins: Vec<String>,
    pub mutable: bool,
}

impl View for AdminListResponse {
    type V = AdminListView;

    open spec fn view(&self) -> AdminListView {
        AdminListView {
            admins: Seq::new(self.admins@.len(), |i: int| self.admins@[i]@),
            mutable: self.mutable,
        }
    }
}

/// The answer to QueryCanExecute: whether the named identity may currently
/// have commands relayed on the list's behalf.
#[derive(Debug, PartialEq, Eq, Clone)]
pub struct CanExecuteResponse {
    pub can_execute: bool,
}

/// The stand-in command type for deployments that relay no custom commands.
#[derive(Debug, PartialEq, Eq, Clone)]
pub struct Empty {}

} // verus!
