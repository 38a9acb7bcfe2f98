use vstd::prelude::*;

verus! {

/// How the application presents itself once launched: a normal windowed
/// application, a background accessory without a dock icon, or no UI at all.
#[derive(Clone, Copy, Debug, PartialEq, Eq, Structural)]
pub enum ActivationPolicy {
    Regular,
    Accessory,
    Prohibited,
}

/// Configuration that is attached to a delegate instance when it is created and
/// applied only once launching has finished.
#[derive(Clone, Copy, Debug, PartialEq, Eq, Structural)]
pub struct AuxDelegateState {
    /// Kept so that setting the activation policy can be deferred until the
    /// application has finished launching: set earlier, the menu bar can start
    /// out unresponsive.
    pub activation_policy: ActivationPolicy,
    pub create_default_menu: bool,
}

impl AuxDelegateState {
    /// The state every delegate instance starts with.
    pub open spec fn initial() -> AuxDelegateState {
        AuxDelegateState { activation_policy: ActivationPolicy::Regular, create_default_menu: true }
    }
}

impl Default for AuxDelegateState {
    fn default() -> (r: AuxDelegateState)
        ensures
            r == AuxDelegateState::initial(),
    {
        AuxDelegateState { activation_policy: ActivationPolicy::Regular, create_default_menu: true }
    }
}

} // verus!
