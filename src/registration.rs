use vstd::prelude::*;

verus! {

/// Name under which the delegate class is registered with the runtime.
pub const DELEGATE_CLASS_NAME: &'static str = "TaoAppDelegate";

/// The runtime class the delegate class derives from.
pub const DELEGATE_SUPERCLASS_NAME: &'static str = "NSResponder";

/// Name of the instance variable that holds each instance's auxiliary state.
pub const AUX_DELEGATE_STATE_NAME: &'static str = "auxState";

/// A callback that the delegate class binds to a selector.
#[derive(Clone, Copy, Debug, PartialEq, Eq, Structural)]
pub enum Callback {
    New,
    Dealloc,
    DidFinishLaunching,
    WillFinishLaunching,
    HandleUrlEvent,
    WillTerminate,
}

pub open spec fn selector_of(c: Callback) -> Seq<char> {
    match c {
        Callback::New => "new"@,
        Callback::Dealloc => "dealloc"@,
        Callback::DidFinishLaunching => "applicationDidFinishLaunching:"@,
        Callback::WillFinishLaunching => "applicationWillFinishLaunching:"@,
        Callback::HandleUrlEvent => "handleUrlEvent:withReplyEvent:"@,
        Callback::WillTerminate => "applicationWillTerminate:"@,
    }
}

/// The bindings, in registration order, that the delegate class is built with.
pub open spec fn bindings() -> Seq<Callback> {
    seq![
        Callback::New,
        Callback::Dealloc,
        Callback::DidFinishLaunching,
        Callback::WillFinishLaunching,
        Callback::HandleUrlEvent,
        Callback::WillTerminate,
    ]
}

impl Callback {
    /// The selector the callback answers to.
    pub fn selector(&self) -> (r: &'static str)
        ensures
            r@ == selector_of(*self),
    {
        match self {
            Callback::New => "new",
            Callback::Dealloc => "dealloc",
            Callback::DidFinishLaunching => "applicationDidFinishLaunching:",
            Callback::WillFinishLaunching => "applicationWillFinishLaunching:",
            Callback::HandleUrlEvent => "handleUrlEvent:withReplyEvent:",
            Callback::WillTerminate => "applicationWillTerminate:",
        }
    }

    /// Whether the callback is bound on the class itself rather than on its
    /// instances: only construction is.
    pub fn is_class_method(&self) -> (r: bool)
        ensures
            r == (*self == Callback::New),
    {
        match self {
            Callback::New => true,
            _ => false,
        }
    }
}

/// The table of callbacks to register before the class is finalized: each of
/// the six, once.
pub fn delegate_callbacks() -> (r: Vec<Callback>)
    ensures
        r@ == bindings(),
{
    let r = vec![
        Callback::New,
        Callback::Dealloc,
        Callback::DidFinishLaunching,
        Callback::WillFinishLaunching,
        Callback::HandleUrlEvent,
        Callback::WillTerminate,
    ];
    assert(r@ =~= bindings());
    r
}

/// Every callback appears in the registration table exactly once.
pub proof fn lemma_every_callback_bound_once(c: Callback)
    ensures
        bindings().contains(c),
        bindings().filter(|x: Callback| x == c).len() == 1,
{
    reveal_with_fuel(Seq::filter, 7);
    match c {
        Callback::New => assert(bindings()[0] == c),
        Callback::Dealloc => assert(bindings()[1] == c),
        Callback::DidFinishLaunching => assert(bindings()[2] == c),
        Callback::WillFinishLaunching => assert(bindings()[3] == c),
        Callback::HandleUrlEvent => assert(bindings()[4] == c),
        Callback::WillTerminate => assert(bindings()[5] == c),
    }
}

} // verus!
