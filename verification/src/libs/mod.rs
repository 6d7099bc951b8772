use vstd::prelude::*;
use vstd::hash_map::StringHashMap;

pub mod apel;
pub mod nerd;
pub mod skui;

verus! {

/// How a native function or a builtin takes one argument.
#[derive(Clone, Copy, Debug, PartialEq, Eq, Structural)]
pub enum ParamKind {
    /// An integer, or a string that writes one in decimal.
    Integer,
    /// An integer; any other value is a type error.
    Number,
    /// A string; any other value is a type error.
    Text,
    /// Any value, written out as text.
    Printed,
}

/// The native functions that the libraries offer.
#[derive(Clone, Copy, Debug, PartialEq, Eq, Structural)]
pub enum NativeFunction {
    /// `nerd.randInt(min, max)`: a random integer from `min` to `max`.
    RandInt,
    /// `apel.spawnTheApel(secret)`: an animation that never ends.
    SpawnTheApel,
    /// `skui.createWindow(width, height, title)`: opens the window.
    CreateWindow,
    /// `skui.pumpEvents()`: handles the window's pending events.
    PumpEvents,
    /// `skui.setFramesPerSkibidi(rate)`: sets the clock's frame rate.
    SetFramesPerSkibidi,
    /// `skui.clockEdge()`: waits for the next frame.
    ClockEdge,
    /// `skui.goonScreen(colour)`: fills the window with one colour.
    GoonScreen,
}

impl NativeFunction {
    /// Whether the function leaves its arguments unevaluated.
    pub open spec fn spec_ignores_arguments(self) -> bool {
        self == NativeFunction::PumpEvents || self == NativeFunction::ClockEdge
    }

    /// Whether the function leaves its arguments unevaluated.
    #[verifier::when_used_as_spec(spec_ignores_arguments)]
    pub fn ignores_arguments(self) -> (b: bool)
        ensures
            b == self.spec_ignores_arguments(),
    {
        match self {
            NativeFunction::PumpEvents | NativeFunction::ClockEdge => true,
            _ => false,
        }
    }

    /// How many arguments the function takes.
    pub open spec fn spec_arity(self) -> usize {
        match self {
            NativeFunction::RandInt => 2,
            NativeFunction::SpawnTheApel => 1,
            NativeFunction::CreateWindow => 3,
            NativeFunction::PumpEvents => 0,
            NativeFunction::SetFramesPerSkibidi => 1,
            NativeFunction::ClockEdge => 0,
            NativeFunction::GoonScreen => 1,
        }
    }

    /// How many arguments the function takes.
    #[verifier::when_used_as_spec(spec_arity)]
    pub fn arity(self) -> (n: usize)
        ensures
            n == self.spec_arity(),
    {
        match self {
            NativeFunction::RandInt => 2,
            NativeFunction::SpawnTheApel => 1,
            NativeFunction::CreateWindow => 3,
            NativeFunction::PumpEvents => 0,
            NativeFunction::SetFramesPerSkibidi => 1,
            NativeFunction::ClockEdge => 0,
            NativeFunction::GoonScreen => 1,
        }
    }

    /// How the function takes its argument at `index`.
    pub open spec fn spec_kind(self, index: usize) -> ParamKind {
        match self {
            NativeFunction::CreateWindow => if index == 2 {
                ParamKind::Text
            } else {
                ParamKind::Number
            },
            NativeFunction::GoonScreen => ParamKind::Text,
            _ => ParamKind::Number,
        }
    }

    /// How the function takes its argument at `index`.
    #[verifier::when_used_as_spec(spec_kind)]
    pub fn kind(self, index: usize) -> (k: ParamKind)
        ensures
            k == self.spec_kind(index),
    {
        match self {
            NativeFunction::CreateWindow => if index == 2 {
                ParamKind::Text
            } else {
                ParamKind::Number
            },
            NativeFunction::GoonScreen => ParamKind::Text,
            _ => ParamKind::Number,
        }
    }
}

/// The state that a library keeps between calls.
#[derive(Clone, Copy, Debug)]
pub enum LibState {
    /// The state of the library `skui`.
    SkuiState(skui::SkuiState),
    /// The library keeps no state.
    Stateless,
}

/// A native library: its functions by name, and its state.
pub struct Library {
    pub functions: StringHashMap<NativeFunction>,
    pub state: LibState,
}

/// A library as plain values.
pub struct LibraryView {
    pub functions: Map<Seq<char>, NativeFunction>,
    pub state: LibState,
}

impl View for Library {
    type V = LibraryView;

    open spec fn view(&self) -> LibraryView {
        LibraryView { functions: self.functions@, state: self.state }
    }
}

/// The library that an import of `name` loads, if `name` is a library.
pub open spec fn library_named(name: Seq<char>) -> Option<LibraryView> {
    if name == "nerd"@ {
        Some(nerd::nerd_library())
    } else if name == "skui"@ {
        Some(skui::skui_library())
    } else if name == "apel"@ {
        Some(apel::apel_library())
    } else {
        None
    }
}

/// Loads the library that `name` names, if it names one.
pub fn load_library(name: &String) -> (library: Option<Library>)
    ensures
        match library {
            Some(l) => library_named(name@) == Some(l@),
            None => library_named(name@) is None,
        },
{
    if *name == String::from_str(nerd::LIBRARY_NAME) {
        Some(nerd::load_nerd_library())
    } else if *name == String::from_str(skui::LIBRARY_NAME) {
        Some(skui::load_skui_library())
    } else if *name == String::from_str(apel::LIBRARY_NAME) {
        Some(apel::load_apel_library())
    } else {
        None
    }
}


/// Runs the native function `f` on the values of its arguments: what the
/// library decides itself, up to its request to the host.
pub fn native(itp: &mut crate::interpreter::Interpreter, f: NativeFunction, values: &Vec<crate::ast::Expr>)
    requires
        values.len() == f.spec_arity(),
    ensures
        final(itp)@ == old(itp)@.native(f, crate::ast::exprs_view(values@)),
{
    match f {
        NativeFunction::RandInt => nerd::rand_int_builtin(itp, values),
        NativeFunction::SpawnTheApel => apel::spawn_apel_builtin(itp, values),
        NativeFunction::CreateWindow => skui::window::create_window_builtin(itp, values),
        NativeFunction::PumpEvents => skui::window::pump_events_builtin(itp, values),
        NativeFunction::SetFramesPerSkibidi => skui::clock::clock_set_fps_builtin(itp, values),
        NativeFunction::ClockEdge => skui::clock::clock_tick_builtin(itp, values),
        NativeFunction::GoonScreen => skui::window::fill_screen_builtin(itp, values),
    }
}

} // verus!
