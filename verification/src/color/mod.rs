//! Named colors. Their channel values live with the renderer.
use vstd::prelude::*;
use crate::text::same_text;

verus! {

#[derive(Copy, Clone, PartialEq, Eq, Debug, Structural)]
pub enum WebColor {
    Blue,
    DeepPink,
    Grey,
    Green,
    Red,
}

#[derive(Copy, Clone, PartialEq, Eq, Debug, Structural)]
pub enum X11Color {
    Lavender,
    Thistle,
    Plum,
    MediumPurple,
    Indigo,
}

/// The web color a name stands for; a name that is not known gives
/// `DeepPink`.
pub open spec fn web_color_named(name: Seq<char>) -> WebColor {
    if name == "blue"@ {
        WebColor::Blue
    } else if name == "green"@ {
        WebColor::Green
    } else if name == "grey"@ {
        WebColor::Grey
    } else if name == "deeppink"@ {
        WebColor::DeepPink
    } else if name == "red"@ {
        WebColor::Red
    } else {
        WebColor::DeepPink
    }
}

impl WebColor {
    pub fn from_name(name: &str) -> (color: Self)
        ensures
            color == web_color_named(name@),
    {
        if same_text(name, "blue") {
            WebColor::Blue
        } else if same_text(name, "green") {
            WebColor::Green
        } else if same_text(name, "grey") {
            WebColor::Grey
        } else if same_text(name, "deeppink") {
            WebColor::DeepPink
        } else if same_text(name, "red") {
            WebColor::Red
        } else {
            WebColor::DeepPink
        }
    }
}

} // verus!
