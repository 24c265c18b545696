use vstd::prelude::*;

use crate::algebra::{vmul3, Vector};
use crate::num::{Sym, Val};

verus! {

// Radiance and reflectance triples.

/// An RGB color with exact components.
#[derive(Clone, Copy, Debug)]
pub struct Color {
    pub red: Val,
    pub green: Val,
    pub blue: Val,
}

impl View for Color {
    type V = (Sym, Sym, Sym);

    open spec fn view(&self) -> (Sym, Sym, Sym) {
        (self.red@, self.green@, self.blue@)
    }
}

impl Color {
    pub fn new(red: Val, green: Val, blue: Val) -> (res: Color)
        ensures
            res@ == (red@, green@, blue@),
    {
        Color { red, green, blue }
    }

    /// Full reflectance in every channel.
    pub fn white() -> (res: Color)
        ensures
            res@ == (
                crate::algebra::sym_int(1),
                crate::algebra::sym_int(1),
                crate::algebra::sym_int(1),
            ),
    {
        let one = Val::from_int(1);
        Color { red: one, green: one, blue: one }
    }

    /// No radiance in any channel, e.g. for a ray that escapes the scene.
    pub fn black() -> (res: Color)
        ensures
            res@ == (
                crate::algebra::sym_int(0),
                crate::algebra::sym_int(0),
                crate::algebra::sym_int(0),
            ),
    {
        let zero = Val::from_int(0);
        Color { red: zero, green: zero, blue: zero }
    }

    /// The color as a coefficient vector.
    pub fn to_vector(&self) -> (res: Vector)
        ensures
            res@ == self@,
    {
        Vector::new(self.red, self.green, self.blue)
    }
}

/// One step of the shading recursion: the sampled coefficient applied
/// component-wise to the radiance returned by the recursive trace.
pub fn shade_term(coefficient: &Vector, radiance: &Color) -> (res: Option<Color>)
    ensures
        (match res {
            Some(c) => vmul3(coefficient@, radiance@) == Some(c@),
            None => vmul3(coefficient@, radiance@) == None::<(Sym, Sym, Sym)>,
        }),
{
    let rv = radiance.to_vector();
    match coefficient.mul_comp(&rv) {
        Some(v) => Some(Color { red: v.x, green: v.y, blue: v.z }),
        None => None,
    }
}

} // verus!
