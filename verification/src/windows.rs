use vstd::prelude::*;

verus! {

/// The role a piece of hint-bar text plays in the colour theme; the
/// renderer maps each role to a concrete colour.
#[derive(Clone, Copy, Debug, PartialEq, Eq, Structural)]
pub enum LayoutColorTypeEnum {
    Primary,
    Secondary,
    Text,
    TextReverse,
    Error,
    Background,
}

/// One entry of a screen's hint bar: a short title, the shortcut that
/// triggers it, and the colour role its text is drawn in.
#[derive(Clone, Copy, Debug, PartialEq, Eq)]
pub struct Instruction<'a> {
    pub title: &'a str,
    pub shortcut: &'a str,
    pub color_type: LayoutColorTypeEnum,
}

impl<'a> Instruction<'a> {
    pub fn new(title: &'a str, shortcut: &'a str, color_type: LayoutColorTypeEnum) -> (r: Self)
        ensures
            r.title@ == title@,
            r.shortcut@ == shortcut@,
            r.color_type == color_type,
    {
        Self { title, shortcut, color_type }
    }
}

/// The ordered list of hint-bar entries of one screen. Entries are added
/// one by one and kept in insertion order; the renderer walks them in
/// that order to lay the bar out.
pub struct InstructionWidget<'a> {
    pub instructions: Vec<Instruction<'a>>,
}

impl<'a> InstructionWidget<'a> {
    /// An empty hint bar.
    pub fn new() -> (r: Self)
        ensures
            r.instructions@ =~= Seq::<Instruction<'a>>::empty(),
    {
        Self { instructions: Vec::new() }
    }

    /// Appends one entry; every earlier entry keeps its place.
    pub fn add_instruction(&mut self, instruction: Instruction<'a>)
        ensures
            final(self).instructions@ == old(self).instructions@.push(instruction),
    {
        self.instructions.push(instruction);
    }

    /// How many entries the bar holds.
    pub fn count(&self) -> (r: usize)
        ensures
            r == self.instructions@.len(),
    {
        self.instructions.len()
    }

    /// The entry at the given place, in insertion order.
    pub fn get(&self, index: usize) -> (r: &Instruction<'a>)
        requires
            index < self.instructions@.len(),
        ensures
            *r == self.instructions@[index as int],
    {
        &self.instructions[index]
    }
}

} // verus!
