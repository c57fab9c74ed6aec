use vstd::prelude::*;

verus! {

/// User settings: the default stroke width, in thousandths of a pixel, and
/// the names of the keys bound to each action. A missing entry is `None`.
#[derive(Debug)]
pub struct Configuration {
    pub line_thickness: Option<u32>,
    pub draw_keybind: Option<String>,
    pub arrow_keybind: Option<String>,
    pub reverse_arrow_keybind: Option<String>,
    pub rectangle_keybind: Option<String>,
    pub disable_drawing: Option<String>,
    pub color_r: Option<String>,
    pub color_g: Option<String>,
    pub color_b: Option<String>,
    pub color_chooser: Option<String>,
}

/// `a` where it is set, `b` otherwise.
pub open spec fn prefer<T>(a: Option<T>, b: Option<T>) -> Option<T> {
    if a is Some { a } else { b }
}

fn first_set<T>(a: Option<T>, b: Option<T>) -> (r: Option<T>)
    ensures
        r == prefer(a, b),
{
    match a {
        Some(x) => Some(x),
        None => b,
    }
}

/// `k` is set to the key name `name`.
pub open spec fn bound_to(k: Option<String>, name: Seq<char>) -> bool {
    k is Some && k->0@ == name
}

fn key(name: &str) -> (r: Option<String>)
    ensures
        bound_to(r, name@),
{
    Some(name.to_owned())
}

impl Configuration {
    /// The settings that every configuration falls back on: a width of two
    /// pixels and no key bindings.
    pub fn minimal() -> (r: Self)
        ensures
            r.line_thickness == Some(2000u32),
            r.draw_keybind is None,
            r.arrow_keybind is None,
            r.reverse_arrow_keybind is None,
            r.rectangle_keybind is None,
            r.disable_drawing is None,
            r.color_r is None,
            r.color_g is None,
            r.color_b is None,
            r.color_chooser is None,
    {
        Configuration {
            line_thickness: Some(2000),
            draw_keybind: None,
            arrow_keybind: None,
            reverse_arrow_keybind: None,
            rectangle_keybind: None,
            disable_drawing: None,
            color_r: None,
            color_g: None,
            color_b: None,
            color_chooser: None,
        }
    }

    /// Each setting of `self` where it is set, else that of `other_config`.
    pub fn merge(self, other_config: Self) -> (r: Self)
        ensures
            r.line_thickness == prefer(self.line_thickness, other_config.line_thickness),
            r.draw_keybind == prefer(self.draw_keybind, other_config.draw_keybind),
            r.arrow_keybind == prefer(self.arrow_keybind, other_config.arrow_keybind),
            r.reverse_arrow_keybind == prefer(
                self.reverse_arrow_keybind,
                other_config.reverse_arrow_keybind,
            ),
            r.rectangle_keybind == prefer(self.rectangle_keybind, other_config.rectangle_keybind),
            r.disable_drawing == prefer(self.disable_drawing, other_config.disable_drawing),
            r.color_r == prefer(self.color_r, other_config.color_r),
            r.color_g == prefer(self.color_g, other_config.color_g),
            r.color_b == prefer(self.color_b, other_config.color_b),
            r.color_chooser == prefer(self.color_chooser, other_config.color_chooser),
    {
        Configuration {
            line_thickness: first_set(self.line_thickness, other_config.line_thickness),
            draw_keybind: first_set(self.draw_keybind, other_config.draw_keybind),
            arrow_keybind: first_set(self.arrow_keybind, other_config.arrow_keybind),
            reverse_arrow_keybind: first_set(
                self.reverse_arrow_keybind,
                other_config.reverse_arrow_keybind,
            ),
            rectangle_keybind: first_set(self.rectangle_keybind, other_config.rectangle_keybind),
            disable_drawing: first_set(self.disable_drawing, other_config.disable_drawing),
            color_r: first_set(self.color_r, other_config.color_r),
            color_g: first_set(self.color_g, other_config.color_g),
            color_b: first_set(self.color_b, other_config.color_b),
            color_chooser: first_set(self.color_chooser, other_config.color_chooser),
        }
    }
}

impl Default for Configuration {
    /// Two-pixel strokes; keys 1 to 4 pick the freehand, arrow, reversed
    /// arrow and rectangle tools, d stops drawing, r, g and b pick a preset
    /// color and c opens the color chooser.
    fn default() -> (r: Self)
        ensures
            r.line_thickness == Some(2000u32),
            bound_to(r.draw_keybind, "1"@),
            bound_to(r.arrow_keybind, "2"@),
            bound_to(r.reverse_arrow_keybind, "3"@),
            bound_to(r.rectangle_keybind, "4"@),
            bound_to(r.disable_drawing, "d"@),
            bound_to(r.color_r, "r"@),
            bound_to(r.color_g, "g"@),
            bound_to(r.color_b, "b"@),
            bound_to(r.color_chooser, "c"@),
    {
        Configuration {
            line_thickness: Some(2000),
            draw_keybind: key("1"),
            arrow_keybind: key("2"),
            reverse_arrow_keybind: key("3"),
            rectangle_keybind: key("4"),
            disable_drawing: key("d"),
            color_r: key("r"),
            color_g: key("g"),
            color_b: key("b"),
            color_chooser: key("c"),
        }
    }
}

} // verus!
