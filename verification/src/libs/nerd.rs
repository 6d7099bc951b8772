use vstd::prelude::*;
use vstd::hash_map::StringHashMap;
use vstd::string::*;
use crate::ast::{exprs_view, Expr, ExprView};
use crate::interpreter::Interpreter;
use crate::libs::{LibState, Library, LibraryView, NativeFunction};
use crate::machine::{FocusView, Request, RequestView};
use crate::semantics::number_of;

verus! {

/// The name under which the library is imported.
pub const LIBRARY_NAME: &'static str = "nerd";

/// The library `nerd`: the one function `randInt`, and no state.
pub open spec fn nerd_library() -> LibraryView {
    LibraryView {
        functions: Map::<Seq<char>, NativeFunction>::empty().insert(
            "randInt"@,
            NativeFunction::RandInt,
        ),
        state: LibState::Stateless,
    }
}

/// Builds the library `nerd`.
pub fn load_nerd_library() -> (library: Library)
    ensures
        library@ == nerd_library(),
{
    let mut functions: StringHashMap<NativeFunction> = StringHashMap::new();
    functions.insert(String::from_str("randInt"), NativeFunction::RandInt);
    Library { functions, state: LibState::Stateless }
}

/// Calls `Rng::gen_range` of the crate `rand` on the thread's generator with
/// the inclusive range from `min` to `max`. The crate documents that the
/// value lies in the range, and that an empty range panics.
#[verifier::external_body]
pub(crate) fn random_in_range(min: i64, max: i64) -> (drawn: i64)
    requires
        min <= max,
    ensures
        min <= drawn <= max,
{
    rand::Rng::gen_range(&mut rand::thread_rng(), min..=max)
}


/// The functions of the library by name alone, without an evaluator.
pub struct NerdLib;

impl NerdLib {
    /// What a call of `name` gives when nothing is drawn: `randInt` stands
    /// for the number one, and any other name is unknown.
    pub fn execute_function_call(name: &str, args: Vec<Expr>) -> (r: Result<Expr, String>)
        ensures
            match r {
                Ok(v) => name@ == "randInt"@ && v@ == ExprView::Number(1),
                Err(message) => name@ != "randInt"@ && message@ == "Unknown function: "@ + name@,
            },
    {
        if String::from_str(name) == String::from_str("randInt") {
            Ok(Expr::Number(1))
        } else {
            let mut message = String::from_str("Unknown function: ");
            message.append(name);
            Err(message)
        }
    }
}

/// The integer that a value holds; zero for any other value.
pub fn number_value(value: &Expr) -> (n: i64)
    ensures
        n == number_of(value@),
{
    match value {
        Expr::Number(n) => *n,
        _ => 0,
    }
}

/// `randInt(min, max)`: refuses an empty range, and asks for a number
/// otherwise.
pub fn rand_int_builtin(itp: &mut Interpreter, values: &Vec<Expr>)
    requires
        values.len() == 2,
    ensures
        final(itp)@ == old(itp)@.native(NativeFunction::RandInt, exprs_view(values@)),
{
    let min = number_value(&values[0]);
    let max = number_value(&values[1]);
    if min > max {
        itp.general(String::from_str("min cannot be greater than max"));
    } else {
        itp.ask(Request::Random { min, max });
    }
}

/// The range that the evaluator waits for a number from, if it does.
pub open spec fn wanted_range(focus: FocusView) -> Option<(i64, i64)> {
    match focus {
        FocusView::Waiting(RequestView::Random { min, max }) => if min <= max {
            Some((min, max))
        } else {
            None
        },
        _ => None,
    }
}

/// Answers a request for a random number: draws one and hands it in. An
/// evaluator that waits for no number stays as it is.
pub fn draw(itp: &mut Interpreter)
    ensures
        match wanted_range(old(itp)@.focus) {
            Some((min, max)) => exists|drawn: i64|
                min <= drawn <= max && final(itp)@ == #[trigger] old(itp)@.resume(
                    Ok(ExprView::Number(drawn)),
                ),
            None => final(itp)@ == old(itp)@,
        },
{
    let range = match &itp.focus {
        crate::machine::Focus::Waiting(Request::Random { min, max }) => {
            if *min <= *max {
                Some((*min, *max))
            } else {
                None
            }
        },
        _ => None,
    };
    match range {
        Some((min, max)) => {
            let drawn = random_in_range(min, max);
            itp.resume(Ok(Expr::Number(drawn)));
        },
        None => {},
    }
}

} // verus!
