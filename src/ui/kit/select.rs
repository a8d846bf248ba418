//! Option selector moved by an encoder.
use vstd::prelude::*;
use vstd::arithmetic::div_mod::{lemma_fundamental_div_mod, lemma_fundamental_div_mod_converse};

verus! {

/// Index reached by moving `offset` steps from `selected` among `len`
/// options: wrapping around when `circular`, else held to the first and
/// last option.
pub open spec fn moved_selection(selected: int, offset: int, len: int, circular: bool) -> int {
    if circular {
        (selected + offset) % len
    } else if selected + offset < 0 {
        0
    } else if selected + offset > len - 1 {
        len - 1
    } else {
        selected + offset
    }
}

/// A choice among options, one of them selected.
pub struct Select<'a, O> {
    options: &'a [O],
    selected: usize,
    circular: bool,
}

impl<'a, O> Select<'a, O> {
    /// The options.
    pub closed spec fn options(&self) -> Seq<O> {
        self.options@
    }

    /// Index of the selected option.
    pub closed spec fn selected(&self) -> nat {
        self.selected as nat
    }

    /// Whether moving past either end wraps around.
    pub closed spec fn circular(&self) -> bool {
        self.circular
    }

    pub closed spec fn wf(&self) -> bool {
        self.selected < self.options@.len()
    }

    /// A selector over `options` with `preselected` selected.
    pub fn new(options: &'a [O], preselected: usize, circular: bool) -> (r: Select<'a, O>)
        requires
            preselected < options@.len(),
        ensures
            r.wf(),
            r.options() == options@,
            r.selected() == preselected,
            r.circular() == circular,
    {
        Select { options, selected: preselected, circular }
    }

    /// The selected option.
    pub fn value(&self) -> (r: &O)
        requires
            self.wf(),
        ensures
            *r == self.options()[self.selected() as int],
    {
        &self.options[self.selected]
    }

    /// Index of the selected option.
    pub fn selected_index(&self) -> (r: usize)
        ensures
            r == self.selected(),
    {
        self.selected
    }

    /// Moves the selection by `offset` options.
    pub fn edit_by_encoder(&mut self, offset: i32)
        requires
            old(self).wf(),
        ensures
            final(self).wf(),
            final(self).options() == old(self).options(),
            final(self).circular() == old(self).circular(),
            final(self).selected() == moved_selection(
                old(self).selected() as int,
                offset as int,
                old(self).options().len() as int,
                old(self).circular(),
            ),
    {
        let len = self.options.len() as i128;
        let s = self.selected as i128 + offset as i128;
        let next: i128 = if self.circular {
            if s >= 0 {
                s % len
            } else {
                let m = (-s) % len;
                proof {
                    let x = -(s as int);
                    let d = len as int;
                    lemma_fundamental_div_mod(x, d);
                    let q = x / d;
                    if m == 0 {
                        assert(s as int == (-q) * d + 0) by (nonlinear_arith)
                            requires
                                x == d * q + 0,
                                x == -(s as int),
                        ;
                        lemma_fundamental_div_mod_converse(s as int, d, -q, 0);
                    } else {
                        assert(s as int == (-q - 1) * d + (d - m)) by (nonlinear_arith)
                            requires
                                x == d * q + m,
                                x == -(s as int),
                        ;
                        lemma_fundamental_div_mod_converse(s as int, d, -q - 1, d - m);
                    }
                }
                if m == 0 {
                    0
                } else {
                    len - m
                }
            }
        } else if s < 0 {
            0
        } else if s > len - 1 {
            len - 1
        } else {
            s
        };
        self.selected = next as usize;
    }
}

} // verus!
