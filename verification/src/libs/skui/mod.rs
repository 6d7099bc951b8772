use vstd::prelude::*;
use vstd::hash_map::StringHashMap;
use crate::interpreter::Interpreter;
use crate::libs::{LibState, Library, LibraryView, NativeFunction};

pub mod clock;
pub mod utils;
pub mod window;

verus! {

/// The name under which the library is imported.
pub const LIBRARY_NAME: &'static str = "skui";

/// The window that the library has opened.
#[derive(Clone, Copy, Debug)]
pub struct SkuiApp {
    pub width: u32,
    pub height: u32,
}

/// What the library keeps between calls: the window, once it is open, and
/// the frame clock, once there is one.
#[derive(Clone, Copy, Debug)]
pub struct SkuiState {
    pub app: Option<SkuiApp>,
    pub clock: Option<clock::Clock>,
}

/// The library `skui`: its five functions, no window and no clock.
pub open spec fn skui_library() -> LibraryView {
    LibraryView {
        functions: Map::<Seq<char>, NativeFunction>::empty().insert(
            "createWindow"@,
            NativeFunction::CreateWindow,
        ).insert("pumpEvents"@, NativeFunction::PumpEvents).insert(
            "setFramesPerSkibidi"@,
            NativeFunction::SetFramesPerSkibidi,
        ).insert("clockEdge"@, NativeFunction::ClockEdge).insert(
            "goonScreen"@,
            NativeFunction::GoonScreen,
        ),
        state: LibState::SkuiState(SkuiState { app: None, clock: None }),
    }
}

/// The functions of the library `skui`, by name.
pub fn skui_functions() -> (functions: StringHashMap<NativeFunction>)
    ensures
        functions@ == skui_library().functions,
{
    let mut functions: StringHashMap<NativeFunction> = StringHashMap::new();
    functions.insert(String::from_str("createWindow"), NativeFunction::CreateWindow);
    functions.insert(String::from_str("pumpEvents"), NativeFunction::PumpEvents);
    functions.insert(
        String::from_str("setFramesPerSkibidi"),
        NativeFunction::SetFramesPerSkibidi,
    );
    functions.insert(String::from_str("clockEdge"), NativeFunction::ClockEdge);
    functions.insert(String::from_str("goonScreen"), NativeFunction::GoonScreen);
    functions
}

/// Builds the library `skui`.
pub fn load_skui_library() -> (library: Library)
    ensures
        library@ == skui_library(),
{
    Library {
        functions: skui_functions(),
        state: LibState::SkuiState(SkuiState { app: None, clock: None }),
    }
}


/// The state of the library, if the library is imported.
pub fn load_skui_state(itp: &Interpreter) -> (state: Option<SkuiState>)
    ensures
        state == itp@.skui(),
{
    match itp.libs.get(LIBRARY_NAME) {
        Some(library) => match library.state {
            LibState::SkuiState(state) => Some(state),
            _ => None,
        },
        None => None,
    }
}

/// Replaces the state of the library.
pub fn store_skui_state(itp: &mut Interpreter, state: SkuiState)
    ensures
        final(itp)@ == old(itp)@.with_skui(state),
{
    let library = Library { functions: skui_functions(), state: LibState::SkuiState(state) };
    itp.libs.insert(String::from_str(LIBRARY_NAME), library);
    assert(itp@.libs =~= old(itp)@.libs.insert("skui"@, library@));
}

} // verus!
