//! Paths: ordered sequences of move, line and quadratic-curve commands.
use vstd::prelude::*;

verus! {

/// A point in path coordinates, `[x, y]`.
pub type Point = [i32; 2];

/// One drawing command of a path.
#[derive(Clone, Copy, Debug, PartialEq, Eq)]
pub enum PathCommands {
    MoveTo(Point),
    LineTo(Point),
    /// ctrl, to
    QuadraticCurveTo(Point, Point),
}

/// The point where the pen stands after `cmd`.
pub open spec fn end_point(cmd: PathCommands) -> Point {
    match cmd {
        PathCommands::MoveTo(p) => p,
        PathCommands::LineTo(p) => p,
        PathCommands::QuadraticCurveTo(_, p) => p,
    }
}

/// An append-only sequence of drawing commands.
#[derive(Clone, Debug)]
pub struct Path {
    commands: Vec<PathCommands>,
}

impl View for Path {
    type V = Seq<PathCommands>;

    closed spec fn view(&self) -> Seq<PathCommands> {
        self.commands@
    }
}

impl Path {
    /// The empty path.
    pub fn start() -> (r: Self)
        ensures
            r@ == Seq::<PathCommands>::empty(),
    {
        Self { commands: Vec::new() }
    }

    pub fn move_to(self, to: Point) -> (r: Self)
        ensures
            r@ == self@.push(PathCommands::MoveTo(to)),
    {
        let mut commands = self.commands;
        commands.push(PathCommands::MoveTo(to));
        Path { commands }
    }

    pub fn line_to(self, to: Point) -> (r: Self)
        ensures
            r@ == self@.push(PathCommands::LineTo(to)),
    {
        let mut commands = self.commands;
        commands.push(PathCommands::LineTo(to));
        Path { commands }
    }

    pub fn quadratic_curve_to(self, ctrl: Point, to: Point) -> (r: Self)
        ensures
            r@ == self@.push(PathCommands::QuadraticCurveTo(ctrl, to)),
    {
        let mut commands = self.commands;
        commands.push(PathCommands::QuadraticCurveTo(ctrl, to));
        Path { commands }
    }

    /// The commands, in the order they were appended.
    pub fn commands(&self) -> (r: &Vec<PathCommands>)
        ensures
            r@ == self@,
    {
        &self.commands
    }
}

} // verus!
