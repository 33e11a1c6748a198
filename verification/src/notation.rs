//! The written form of a dual number: `a+bε`, or `a-bε`.
use vstd::prelude::*;
use num::Float;
use std::fmt::Display;
use vstd::std_specs::cmp::lt_ensures;
use vstd::string::to_string_from_display_ensures;
use vstd::string::StringExecFns;
use crate::dual::Dual;
use crate::scalar::below;
use crate::scalar::is_magnitude;
use crate::scalar::is_scalar_zero;
use crate::scalar::magnitude;
use crate::scalar::zero;

verus! {

/// The written form made of the two parts' texts: the real part, a sign, the
/// derivative part, and the letter epsilon. The sign is `-` where `negative`
/// holds and `+` where it does not.
pub open spec fn notation_text(
    real_text: Seq<char>,
    dual_text: Seq<char>,
    negative: bool,
) -> Seq<char> {
    let sign = if negative {
        "-"@
    } else {
        "+"@
    };
    real_text + sign + dual_text + "ε"@
}

/// Puts the written form together from the texts of the two parts.
pub fn notation(real_text: &str, dual_text: &str, negative: bool) -> (s: String)
    ensures
        s@ == notation_text(real_text@, dual_text@, negative),
{
    let mut s = String::from_str(real_text);
    if negative {
        s.append("-");
    } else {
        s.append("+");
    }
    s.append(dual_text);
    s.append("ε");
    s
}

impl<F: Float + Display> Dual<F> {
    /// What [`Dual::render`] writes of `self`: `z` is the scalar zero,
    /// `negative` a result of `a < z` for the real part `a`, `shown` the
    /// derivative part, or its absolute value where `negative` holds, and the
    /// two texts are what `Display` gives for the real part and for `shown`.
    pub open spec fn rendering(
        self,
        z: F,
        negative: bool,
        shown: F,
        real_text: String,
        dual_text: String,
    ) -> bool {
        &&& is_scalar_zero(z)
        &&& lt_ensures::<F>(self.real_part(), z, negative)
        &&& if negative {
            is_magnitude(self.derivative(), shown)
        } else {
            shown == self.derivative()
        }
        &&& to_string_from_display_ensures::<F>(&self.real_part(), real_text)
        &&& to_string_from_display_ensures::<F>(&shown, dual_text)
    }

    /// The written form of `self`: `a+bε` where the real part `a` is not
    /// below zero, with the derivative part `b` as it is (a negative `b`
    /// gives `a+-bε`), and `a-|b|ε` where `a` is below zero.
    ///
    /// The sign is chosen by the real part alone. A real part that is a NaN
    /// is not below zero.
    pub fn render(self) -> (s: String)
        ensures
            exists|z: F, negative: bool, shown: F, real_text: String, dual_text: String|
                #[trigger] self.rendering(z, negative, shown, real_text, dual_text) && s@
                    == notation_text(real_text@, dual_text@, negative),
    {
        let z = zero();
        let negative = below(self.real_part(), z);
        let shown = if negative {
            magnitude(self.derivative())
        } else {
            self.derivative()
        };
        let real_text = self.real_part().to_string();
        let dual_text = shown.to_string();
        let s = notation(real_text.as_str(), dual_text.as_str(), negative);
        assert(self.rendering(z, negative, shown, real_text, dual_text));
        s
    }
}

} // verus!
