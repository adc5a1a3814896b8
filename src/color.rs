use crate::severity::Severity;
use vstd::prelude::*;

verus! {

/// A terminal colour: one of the eight named colours, or an entry of the 256-colour palette.
#[derive(PartialEq, Eq, Structural, Debug, Clone, Copy)]
pub enum Color {
    Black,
    Red,
    Green,
    Yellow,
    Blue,
    Magenta,
    Cyan,
    White,
    Color256(u8),
}

/// The 256-colour palette index of a colour: the named colours take 0 to 7, a palette entry
/// keeps its own index.
pub open spec fn palette_index(c: Color) -> u8 {
    match c {
        Color::Black => 0,
        Color::Red => 1,
        Color::Green => 2,
        Color::Yellow => 3,
        Color::Blue => 4,
        Color::Magenta => 5,
        Color::Cyan => 6,
        Color::White => 7,
        Color::Color256(code) => code,
    }
}

impl Color {
    /// The colour's index in the 256-colour palette.
    pub fn to_color256(&self) -> (r: u8)
        ensures
            r == palette_index(*self),
    {
        match self {
            Color::Black => 0,
            Color::Red => 1,
            Color::Green => 2,
            Color::Yellow => 3,
            Color::Blue => 4,
            Color::Magenta => 5,
            Color::Cyan => 6,
            Color::White => 7,
            Color::Color256(code) => *code,
        }
    }
}

/// An assignment of colours to severities; a severity may have none.
#[derive(Debug, Clone, Copy)]
pub struct ColorMap {
    error: Option<Color>,
    warning: Option<Color>,
    info: Option<Color>,
    debug: Option<Color>,
}

impl ColorMap {
    /// The entry kept for severity `s`.
    pub closed spec fn slot(self, s: Severity) -> Option<Color> {
        match s {
            Severity::Error => self.error,
            Severity::Warning => self.warning,
            Severity::Info => self.info,
            Severity::Debug => self.debug,
        }
    }
}

impl View for ColorMap {
    type V = Map<Severity, Color>;

    closed spec fn view(&self) -> Map<Severity, Color> {
        Map::new(|s: Severity| self.slot(s) is Some, |s: Severity| self.slot(s)->Some_0)
    }
}

impl ColorMap {
    proof fn lemma_view(self, s: Severity)
        ensures
            self@.contains_key(s) <==> self.slot(s) is Some,
            self.slot(s) is Some ==> self@[s] == self.slot(s)->Some_0,
    {
    }

    /// A map that assigns no colour.
    pub fn new() -> (r: ColorMap)
        ensures
            r@ == Map::<Severity, Color>::empty(),
    {
        let r = ColorMap { error: None, warning: None, info: None, debug: None };
        assert(r@ =~= Map::<Severity, Color>::empty());
        r
    }

    /// The colour assigned to `s`, if any.
    pub fn get(&self, s: &Severity) -> (r: Option<Color>)
        ensures
            r == (if self@.contains_key(*s) {
                Some(self@[*s])
            } else {
                None::<Color>
            }),
    {
        proof {
            self.lemma_view(*s);
        }
        match s {
            Severity::Error => self.error,
            Severity::Warning => self.warning,
            Severity::Info => self.info,
            Severity::Debug => self.debug,
        }
    }

    /// Assigns `c` to `s`, returning the colour that `s` had before.
    pub fn insert(&mut self, s: Severity, c: Color) -> (r: Option<Color>)
        ensures
            final(self)@ == old(self)@.insert(s, c),
            r == (if old(self)@.contains_key(s) {
                Some(old(self)@[s])
            } else {
                None::<Color>
            }),
    {
        proof {
            self.lemma_view(s);
        }
        let ghost before = *self;
        let prev = match s {
            Severity::Error => self.error,
            Severity::Warning => self.warning,
            Severity::Info => self.info,
            Severity::Debug => self.debug,
        };
        match s {
            Severity::Error => self.error = Some(c),
            Severity::Warning => self.warning = Some(c),
            Severity::Info => self.info = Some(c),
            Severity::Debug => self.debug = Some(c),
        }
        assert(self@ =~= before@.insert(s, c));
        prev
    }

    /// Takes away the colour of `s`, returning it.
    pub fn remove(&mut self, s: &Severity) -> (r: Option<Color>)
        ensures
            final(self)@ == old(self)@.remove(*s),
            r == (if old(self)@.contains_key(*s) {
                Some(old(self)@[*s])
            } else {
                None::<Color>
            }),
    {
        proof {
            self.lemma_view(*s);
        }
        let ghost before = *self;
        let prev = match s {
            Severity::Error => self.error,
            Severity::Warning => self.warning,
            Severity::Info => self.info,
            Severity::Debug => self.debug,
        };
        match s {
            Severity::Error => self.error = None,
            Severity::Warning => self.warning = None,
            Severity::Info => self.info = None,
            Severity::Debug => self.debug = None,
        }
        assert(self@ =~= before@.remove(*s));
        prev
    }
}

} // verus!
