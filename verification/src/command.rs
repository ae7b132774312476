use vstd::prelude::*;

verus! {

/// The closed set of commands the window manager understands, with the data
/// each carries. The numeric tag assigned by [`IPCCommand::tag`] is the sole
/// discriminator transmitted on the wire, so the variant set and the tag
/// assignment must never be reordered or reused.
#[derive(Clone, Copy)]
pub enum IPCCommand {
    /// Request a graceful close of the window.
    Close,
    /// Request forced termination of the window's process.
    Kill,
    /// Move the window to an absolute position.
    Move { x: i64, y: i64 },
    /// Resize the window to an absolute size.
    Resize { width: i64, height: i64 },
    /// Set, unset, or (when `state` is absent) toggle maximization.
    Maximize { state: Option<bool> },
    /// Set, unset, or (when `state` is absent) toggle fullscreen.
    Fullscreen { state: Option<bool> },
    /// Request that the window be hidden.
    Hide,
    /// Request that the window be unhidden.
    Show,
}

/// Two commands are of the same variant (their carried data may differ).
pub open spec fn same_variant(a: IPCCommand, b: IPCCommand) -> bool {
    &&& (a is Close <==> b is Close)
    &&& (a is Kill <==> b is Kill)
    &&& (a is Move <==> b is Move)
    &&& (a is Resize <==> b is Resize)
    &&& (a is Maximize <==> b is Maximize)
    &&& (a is Fullscreen <==> b is Fullscreen)
    &&& (a is Hide <==> b is Hide)
    &&& (a is Show <==> b is Show)
}

impl IPCCommand {
    /// The wire tag of each variant. This assignment is fixed by the protocol
    /// shared with the receiver: a tag, once assigned, is never reused.
    pub open spec fn spec_tag(self) -> i64 {
        match self {
            IPCCommand::Close => 0,
            IPCCommand::Kill => 1,
            IPCCommand::Move { .. } => 2,
            IPCCommand::Resize { .. } => 3,
            IPCCommand::Maximize { .. } => 4,
            IPCCommand::Fullscreen { .. } => 5,
            IPCCommand::Hide => 6,
            IPCCommand::Show => 7,
        }
    }

    /// The integer discriminator placed in slot 0 of the wire payload.
    pub fn tag(&self) -> (t: i64)
        ensures
            t == self.spec_tag(),
    {
        match *self {
            IPCCommand::Close => 0,
            IPCCommand::Kill => 1,
            IPCCommand::Move { .. } => 2,
            IPCCommand::Resize { .. } => 3,
            IPCCommand::Maximize { .. } => 4,
            IPCCommand::Fullscreen { .. } => 5,
            IPCCommand::Hide => 6,
            IPCCommand::Show => 7,
        }
    }
}

/// The tag mapping is injective over the eight variants — no two variants
/// share a tag — and every tag lies in the small range the receiver expects.
pub proof fn lemma_tag_injective(a: IPCCommand, b: IPCCommand)
    ensures
        a.spec_tag() == b.spec_tag() ==> same_variant(a, b),
        0 <= a.spec_tag() <= 7,
{
}

} // verus!
