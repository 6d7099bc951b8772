use vstd::prelude::*;
use vstd::hash_map::StringHashMap;
use vstd::string::*;
use crate::ast::{exprs_view, Expr};
use crate::interpreter::Interpreter;
use crate::libs::nerd::number_value;
use crate::libs::{LibState, Library, LibraryView, NativeFunction};
use crate::machine::Request;

verus! {

/// The name under which the library is imported.
pub const LIBRARY_NAME: &'static str = "apel";

/// The library `apel`: the one function `spawnTheApel`, and no state.
pub open spec fn apel_library() -> LibraryView {
    LibraryView {
        functions: Map::<Seq<char>, NativeFunction>::empty().insert(
            "spawnTheApel"@,
            NativeFunction::SpawnTheApel,
        ),
        state: LibState::Stateless,
    }
}

/// Builds the library `apel`.
pub fn load_apel_library() -> (library: Library)
    ensures
        library@ == apel_library(),
{
    let mut functions: StringHashMap<NativeFunction> = StringHashMap::new();
    functions.insert(String::from_str("spawnTheApel"), NativeFunction::SpawnTheApel);
    Library { functions, state: LibState::Stateless }
}


/// `spawnTheApel(secret)`: refuses any number but the secret one, and asks
/// for the animation otherwise.
pub fn spawn_apel_builtin(itp: &mut Interpreter, values: &Vec<Expr>)
    requires
        values.len() == 1,
    ensures
        final(itp)@ == old(itp)@.native(NativeFunction::SpawnTheApel, exprs_view(values@)),
{
    if number_value(&values[0]) != 420 {
        itp.general(String::from_str("arg must be secret number"));
    } else {
        itp.ask(Request::Animation);
    }
}

/// How far to the right the picture can go.
pub const WIDTH: i32 = 40;

/// How far down the picture can go.
pub const HEIGHT: i32 = 10;

/// A position as a count: zero for a negative one.
pub open spec fn count(position: i32) -> nat {
    if position > 0 {
        position as nat
    } else {
        0
    }
}

/// Where the picture of the animation stands, and where it is going: one
/// step to the right or to the left, and one step down or up.
#[derive(Clone, Copy, Debug, PartialEq, Eq, Structural)]
pub struct Apel {
    pub x_pos: i32,
    pub y_pos: i32,
    pub x_dir: i32,
    pub y_dir: i32,
}

impl Apel {
    /// Whether the picture is inside the field and moves one step each way,
    /// away from a wall that it touches.
    pub open spec fn in_field(self) -> bool {
        &&& 0 <= self.x_pos <= WIDTH
        &&& 0 <= self.y_pos <= HEIGHT
        &&& (self.x_dir == 1 || self.x_dir == -1)
        &&& (self.y_dir == 1 || self.y_dir == -1)
        &&& (self.x_pos == 0 ==> self.x_dir == 1)
        &&& (self.x_pos == WIDTH ==> self.x_dir == -1)
        &&& (self.y_pos == 0 ==> self.y_dir == 1)
        &&& (self.y_pos == HEIGHT ==> self.y_dir == -1)
    }

    /// The picture in the top left corner, going right and down.
    pub open spec fn start() -> Apel {
        Apel { x_pos: 0, y_pos: 0, x_dir: 1, y_dir: 1 }
    }

    /// The picture one step later: it moves, and turns round at a wall.
    pub open spec fn moved(self) -> Apel {
        let x = self.x_pos + self.x_dir;
        let y = self.y_pos + self.y_dir;
        Apel {
            x_pos: x as i32,
            y_pos: y as i32,
            x_dir: if x <= 0 || x >= WIDTH {
                (-self.x_dir) as i32
            } else {
                self.x_dir
            },
            y_dir: if y <= 0 || y >= HEIGHT {
                (-self.y_dir) as i32
            } else {
                self.y_dir
            },
        }
    }

    /// The picture in the top left corner, going right and down.
    pub fn new() -> (apel: Apel)
        ensures
            apel == Apel::start(),
            apel.in_field(),
    {
        Apel { x_pos: 0, y_pos: 0, x_dir: 1, y_dir: 1 }
    }

    /// Moves the picture by one step. A picture outside the field starts
    /// again from the corner.
    pub fn bounce(&mut self)
        ensures
            *final(self) == (if old(self).in_field() {
                *old(self)
            } else {
                Apel::start()
            }).moved(),
            final(self).in_field(),
    {
        let inside = 0 <= self.x_pos && self.x_pos <= WIDTH && 0 <= self.y_pos && self.y_pos
            <= HEIGHT && (self.x_dir == 1 || self.x_dir == -1) && (self.y_dir == 1 || self.y_dir
            == -1) && (self.x_pos != 0 || self.x_dir == 1) && (self.x_pos != WIDTH || self.x_dir
            == -1) && (self.y_pos != 0 || self.y_dir == 1) && (self.y_pos != HEIGHT || self.y_dir
            == -1);
        if !inside {
            *self = Apel::new();
        }
        self.x_pos = self.x_pos + self.x_dir;
        self.y_pos = self.y_pos + self.y_dir;
        if self.x_pos <= 0 || self.x_pos >= WIDTH {
            self.x_dir = -self.x_dir;
        }
        if self.y_pos <= 0 || self.y_pos >= HEIGHT {
            self.y_dir = -self.y_dir;
        }
    }

    /// The empty lines above the picture and the spaces to its left; none
    /// for a negative position.
    pub open spec fn margin(self) -> Seq<char> {
        Seq::new(count(self.y_pos), |i: int| '\n') + Seq::new(count(self.x_pos), |i: int| ' ')
    }

    /// The text that places `picture` where the picture stands: empty lines
    /// above it and spaces before it.
    pub fn frame(&self, picture: &str) -> (text: String)
        ensures
            text@ == self.margin() + picture@,
    {
        let mut text = String::new();
        let mut row: i32 = 0;
        while row < self.y_pos
            invariant
                0 <= row <= count(self.y_pos),
                text@ == Seq::new(row as nat, |i: int| '\n'),
            decreases self.y_pos - row,
        {
            text.push('\n');
            row += 1;
        }
        let ghost above = text@;
        let mut column: i32 = 0;
        while column < self.x_pos
            invariant
                0 <= column <= count(self.x_pos),
                text@ == above + Seq::new(column as nat, |i: int| ' '),
            decreases self.x_pos - column,
        {
            text.push(' ');
            column += 1;
        }
        text.append(picture);
        text
    }
}

} // verus!
