//! The console frontend's descriptor: a command plus the display color its
//! output is rendered in, and the deterministic assignment of pool colors to
//! descriptors whose color was left to chance.

use vstd::prelude::*;
use crate::command::Color;
use crate::command::Command;
use crate::command::CommandLike;

verus! {

/// A command descriptor for console output: the command itself and the
/// color its output is prefixed with.
pub struct ConsoleCommand {
    inner_command: Command,
    color: Color,
}

impl ConsoleCommand {
    /// The descriptor's display color.
    pub closed spec fn color_model(&self) -> Color {
        self.color
    }

    /// Sets the descriptor's display color.
    pub fn color(&mut self, color: Color)
        ensures
            final(self).color_model() == color,
            final(self).command_model() == old(self).command_model(),
    {
        self.color = color;
    }

    /// The descriptor's display color.
    pub fn get_color(&self) -> (r: Color)
        ensures
            r == self.color_model(),
    {
        self.color
    }
}

impl Clone for ConsoleCommand {
    fn clone(&self) -> (r: ConsoleCommand)
        ensures
            r.color_model() == self.color_model(),
            r.command_model().name == self.command_model().name,
            r.command_model().program == self.command_model().program,
            r.command_model().args@ == self.command_model().args@,
            r.command_model().cur_dir == self.command_model().cur_dir,
    {
        ConsoleCommand { inner_command: self.inner_command.clone(), color: self.color }
    }
}

impl CommandLike for ConsoleCommand {
    closed spec fn command_model(&self) -> Command {
        self.inner_command
    }

    /// A freshly wrapped command starts with its color left to chance, to be
    /// resolved from the pool at run start.
    fn insert_command(cmd: Command) -> (r: Self)
        ensures
            r.color_model() == Color::Random,
    {
        ConsoleCommand { inner_command: cmd, color: Color::Random }
    }

    fn get_command(&self) -> (r: &Command) {
        &self.inner_command
    }

    /// Replacing the command leaves the display color untouched.
    fn set_command(&mut self, cmd: Command)
        ensures
            final(self).color_model() == old(self).color_model(),
    {
        self.inner_command = cmd;
    }
}

/// The colors of a descriptor sequence, in registration order.
pub open spec fn colors_of(cmds: Seq<ConsoleCommand>) -> Seq<Color> {
    cmds.map_values(|c: ConsoleCommand| c.color_model())
}

/// The pool a color is drawn from when a descriptor left its color to
/// chance: cycled in a fixed order so that neighbouring workers do not
/// collide visually.
pub open spec fn pool_color(k: nat) -> Color {
    let m = k % 6;
    if m == 0 {
        Color::Cyan
    } else if m == 1 {
        Color::Magenta
    } else if m == 2 {
        Color::Green
    } else if m == 3 {
        Color::Yellow
    } else if m == 4 {
        Color::Blue
    } else {
        Color::Red
    }
}

/// How many of the first `upto` colors were left to chance.
pub open spec fn count_random(colors: Seq<Color>, upto: int) -> nat
    decreases upto,
{
    if upto <= 0 {
        0
    } else {
        count_random(colors, upto - 1) + if colors[upto - 1] is Random {
            1nat
        } else {
            0nat
        }
    }
}

/// The color worker `i` is displayed in: its own choice, or the next pool
/// color where the choice was left to chance.
pub open spec fn assigned_color(colors: Seq<Color>, i: int) -> Color {
    if colors[i] is Random {
        pool_color(count_random(colors, i))
    } else {
        colors[i]
    }
}

fn pool_color_at(k: usize) -> (r: Color)
    ensures
        r == pool_color(k as nat),
{
    match k % 6 {
        0 => Color::Cyan,
        1 => Color::Magenta,
        2 => Color::Green,
        3 => Color::Yellow,
        4 => Color::Blue,
        _ => Color::Red,
    }
}

/// Gives every descriptor its display color: the one it chose, or one drawn
/// from the pool in registration order where it chose none. The mapping is a
/// plain value scoped to one run, handed to the rendering collaborator.
pub fn assign_colors(cmds: &Vec<ConsoleCommand>) -> (r: Vec<Color>)
    ensures
        r@.len() == cmds@.len(),
        forall|i: int| 0 <= i < cmds@.len() ==> r@[i] == assigned_color(colors_of(cmds@), i),
{
    let mut out: Vec<Color> = Vec::new();
    let mut rand_count: usize = 0;
    let mut i: usize = 0;
    while i < cmds.len()
        invariant
            i <= cmds@.len(),
            out@.len() == i,
            rand_count <= i,
            rand_count == count_random(colors_of(cmds@), i as int),
            forall|k: int| 0 <= k < i ==> out@[k] == assigned_color(colors_of(cmds@), k),
        decreases cmds@.len() - i,
    {
        let c = cmds[i].get_color();
        match c {
            Color::Random => {
                out.push(pool_color_at(rand_count));
                rand_count = rand_count + 1;
            },
            _ => {
                out.push(c);
            },
        }
        i = i + 1;
    }
    out
}

} // verus!
