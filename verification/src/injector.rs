//! Planning of the synthetic key strokes that paste into the focused
//! application.

use vstd::prelude::*;

verus! {

/// The operating system that the key strokes are meant for.
#[derive(Clone, Copy, Debug, PartialEq, Eq, Hash, Structural)]
pub enum Platform {
    MacOs,
    Windows,
    Linux,
}

/// A key that can be synthesized.
#[derive(Clone, Copy, Debug, PartialEq, Eq, Hash, Structural)]
pub enum Key {
    Control,
    Meta,
    /// The key that produces the given character on the current layout.
    Layout(char),
}

/// One synthetic key stroke.
#[derive(Clone, Copy, Debug, PartialEq, Eq, Hash, Structural)]
pub enum KeyStroke {
    /// Push the key down and hold it.
    Down(Key),
    /// Push the key down and let it go.
    Click(Key),
    /// Let go of a key that is held.
    Up(Key),
}

/// Whether the operating system lets this process synthesize input.
#[derive(Clone, Copy, Debug, PartialEq, Eq, Hash, Structural)]
pub enum SimulationAccess {
    Granted,
    Denied,
}

/// Why nothing was injected.
#[derive(Clone, Copy, Debug, PartialEq, Eq, Hash, Structural)]
pub enum InjectionError {
    /// The operating system does not let this process synthesize input.
    SimulationUnavailable,
}

/// The modifier that pastes together with `v` on `platform`.
pub open spec fn paste_modifier(platform: Platform) -> Key {
    match platform {
        Platform::MacOs => Key::Meta,
        Platform::Windows => Key::Control,
        Platform::Linux => Key::Control,
    }
}

/// The paste chord of `platform`: hold the modifier, tap `v`, release the
/// modifier.
pub open spec fn paste_chord(platform: Platform) -> Seq<KeyStroke> {
    seq![
        KeyStroke::Down(paste_modifier(platform)),
        KeyStroke::Click(Key::Layout('v')),
        KeyStroke::Up(paste_modifier(platform)),
    ]
}

/// What a request to paste comes to on `platform` under `access`.
pub open spec fn injection(platform: Platform, access: SimulationAccess) -> Result<
    Seq<KeyStroke>,
    InjectionError,
> {
    match access {
        SimulationAccess::Granted => Ok(paste_chord(platform)),
        SimulationAccess::Denied => Err(InjectionError::SimulationUnavailable),
    }
}

/// Plans key strokes for one platform. It keeps no record of earlier
/// injections, so a request may follow another at any time.
#[derive(Clone, Copy, Debug, PartialEq, Eq, Hash, Structural)]
pub struct KeyInjector {
    pub platform: Platform,
}

impl KeyInjector {
    /// An injector for `platform`.
    pub fn new(platform: Platform) -> (injector: KeyInjector)
        ensures
            injector.platform == platform,
    {
        KeyInjector { platform }
    }

    /// The modifier of the paste chord.
    pub fn modifier(&self) -> (key: Key)
        ensures
            key == paste_modifier(self.platform),
    {
        match self.platform {
            Platform::MacOs => Key::Meta,
            Platform::Windows => Key::Control,
            Platform::Linux => Key::Control,
        }
    }

    /// The key strokes that paste into whichever application holds the input
    /// focus, in the order in which they are to be synthesized. Where the
    /// operating system denies synthetic input there is nothing to synthesize,
    /// and the caller is told so.
    pub fn inject_paste(&self, access: SimulationAccess) -> (result: Result<
        Vec<KeyStroke>,
        InjectionError,
    >)
        ensures
            match result {
                Ok(strokes) => injection(self.platform, access) == Ok::<
                    Seq<KeyStroke>,
                    InjectionError,
                >(strokes@),
                Err(error) => injection(self.platform, access) == Err::<
                    Seq<KeyStroke>,
                    InjectionError,
                >(error),
            },
    {
        match access {
            SimulationAccess::Denied => Err(InjectionError::SimulationUnavailable),
            SimulationAccess::Granted => {
                let modifier = self.modifier();
                let mut strokes: Vec<KeyStroke> = Vec::new();
                strokes.push(KeyStroke::Down(modifier));
                strokes.push(KeyStroke::Click(Key::Layout('v')));
                strokes.push(KeyStroke::Up(modifier));
                assert(strokes@ =~= paste_chord(self.platform));
                Ok(strokes)
            },
        }
    }
}

} // verus!
