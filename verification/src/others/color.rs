use crate::error::{outcome, Error, ErrorView};
use crate::field::{optional_str, read_optional_str};
use crate::json::{Json, JsonValue};
use crate::text::same_text;
use vstd::prelude::*;

verus! {

/// The colours of text: the ten of the palette, and nine of them again as
/// backgrounds.
#[derive(Clone, Copy, Debug, PartialEq, Eq, Structural)]
pub enum Color {
    Default,
    Gray,
    Brown,
    Orange,
    Yellow,
    Green,
    Blue,
    Purple,
    Pink,
    Red,
    GrayBackground,
    BrownBackground,
    OrangeBackground,
    YellowBackground,
    GreenBackground,
    BlueBackground,
    PurpleBackground,
    PinkBackground,
    RedBackground,
}

impl DeepView for Color {
    type V = Color;

    open spec fn deep_view(&self) -> Color {
        *self
    }
}

impl View for Color {
    type V = Color;

    open spec fn view(&self) -> Color {
        *self
    }
}

/// The name that a colour is written with.
pub open spec fn color_name(color: Color) -> Seq<char> {
    match color {
        Color::Default => "default"@,
        Color::Gray => "gray"@,
        Color::Brown => "brown"@,
        Color::Orange => "orange"@,
        Color::Yellow => "yellow"@,
        Color::Green => "green"@,
        Color::Blue => "blue"@,
        Color::Purple => "purple"@,
        Color::Pink => "pink"@,
        Color::Red => "red"@,
        Color::GrayBackground => "gray_background"@,
        Color::BrownBackground => "brown_background"@,
        Color::OrangeBackground => "orange_background"@,
        Color::YellowBackground => "yellow_background"@,
        Color::GreenBackground => "green_background"@,
        Color::BlueBackground => "blue_background"@,
        Color::PurpleBackground => "purple_background"@,
        Color::PinkBackground => "pink_background"@,
        Color::RedBackground => "red_background"@,
    }
}

/// The colour that `name` is the name of.
pub open spec fn color_named(name: Seq<char>) -> Option<Color> {
    if name == "default"@ {
        Some(Color::Default)
    } else if name == "gray"@ {
        Some(Color::Gray)
    } else if name == "brown"@ {
        Some(Color::Brown)
    } else if name == "orange"@ {
        Some(Color::Orange)
    } else if name == "yellow"@ {
        Some(Color::Yellow)
    } else if name == "green"@ {
        Some(Color::Green)
    } else if name == "blue"@ {
        Some(Color::Blue)
    } else if name == "purple"@ {
        Some(Color::Purple)
    } else if name == "pink"@ {
        Some(Color::Pink)
    } else if name == "red"@ {
        Some(Color::Red)
    } else if name == "gray_background"@ {
        Some(Color::GrayBackground)
    } else if name == "brown_background"@ {
        Some(Color::BrownBackground)
    } else if name == "orange_background"@ {
        Some(Color::OrangeBackground)
    } else if name == "yellow_background"@ {
        Some(Color::YellowBackground)
    } else if name == "green_background"@ {
        Some(Color::GreenBackground)
    } else if name == "blue_background"@ {
        Some(Color::BlueBackground)
    } else if name == "purple_background"@ {
        Some(Color::PurpleBackground)
    } else if name == "pink_background"@ {
        Some(Color::PinkBackground)
    } else if name == "red_background"@ {
        Some(Color::RedBackground)
    } else {
        None
    }
}

/// Every colour is found again under its name.
pub proof fn lemma_color_named_name(color: Color)
    ensures
        color_named(color_name(color)) == Some(color),
{
    reveal_strlit("default");
    reveal_strlit("gray");
    reveal_strlit("brown");
    reveal_strlit("orange");
    reveal_strlit("yellow");
    reveal_strlit("green");
    reveal_strlit("blue");
    reveal_strlit("purple");
    reveal_strlit("pink");
    reveal_strlit("red");
    reveal_strlit("gray_background");
    reveal_strlit("brown_background");
    reveal_strlit("orange_background");
    reveal_strlit("yellow_background");
    reveal_strlit("green_background");
    reveal_strlit("blue_background");
    reveal_strlit("purple_background");
    reveal_strlit("pink_background");
    reveal_strlit("red_background");
    assert("default"@.len() == 7);
    assert("gray"@.len() == 4 && "gray"@[0] == 'g');
    assert("brown"@.len() == 5 && "brown"@[0] == 'b');
    assert("orange"@.len() == 6 && "orange"@[0] == 'o');
    assert("yellow"@.len() == 6 && "yellow"@[0] == 'y');
    assert("green"@.len() == 5 && "green"@[0] == 'g');
    assert("blue"@.len() == 4 && "blue"@[0] == 'b');
    assert("purple"@.len() == 6 && "purple"@[0] == 'p');
    assert("pink"@.len() == 4 && "pink"@[0] == 'p');
    assert("red"@.len() == 3);
    assert("gray_background"@.len() == 15 && "gray_background"@[0] == 'g');
    assert("brown_background"@.len() == 16 && "brown_background"@[0] == 'b');
    assert("orange_background"@.len() == 17 && "orange_background"@[0] == 'o');
    assert("yellow_background"@.len() == 17 && "yellow_background"@[0] == 'y');
    assert("green_background"@.len() == 16 && "green_background"@[0] == 'g');
    assert("blue_background"@.len() == 15 && "blue_background"@[0] == 'b');
    assert("purple_background"@.len() == 17 && "purple_background"@[0] == 'p');
    assert("pink_background"@.len() == 15 && "pink_background"@[0] == 'p');
    assert("red_background"@.len() == 14);
}

/// The colour under `key`; the default colour where the key is absent or
/// holds `null`.
pub open spec fn optional_color(j: JsonValue, key: Seq<char>) -> Result<Color, ErrorView> {
    match optional_str(j, key) {
        Err(e) => Err(e),
        Ok(None) => Ok(Color::Default),
        Ok(Some(name)) => match color_named(name) {
            Some(color) => Ok(color),
            None => Err(ErrorView::InvalidEnumValue { field: key, received: name }),
        },
    }
}

impl Default for Color {
    fn default() -> (r: Color)
        ensures
            r == Color::Default,
    {
        Color::Default
    }
}

impl Color {
    /// The name that the colour is written with.
    pub fn name(&self) -> (r: &'static str)
        ensures
            r@ == color_name(*self),
    {
        match self {
            Color::Default => "default",
            Color::Gray => "gray",
            Color::Brown => "brown",
            Color::Orange => "orange",
            Color::Yellow => "yellow",
            Color::Green => "green",
            Color::Blue => "blue",
            Color::Purple => "purple",
            Color::Pink => "pink",
            Color::Red => "red",
            Color::GrayBackground => "gray_background",
            Color::BrownBackground => "brown_background",
            Color::OrangeBackground => "orange_background",
            Color::YellowBackground => "yellow_background",
            Color::GreenBackground => "green_background",
            Color::BlueBackground => "blue_background",
            Color::PurpleBackground => "purple_background",
            Color::PinkBackground => "pink_background",
            Color::RedBackground => "red_background",
        }
    }

    /// The colour that `name` names, if it names one.
    pub fn parse(name: &str) -> (r: Option<Color>)
        ensures
            r == color_named(name@),
    {
        if same_text(name, "default") {
            Some(Color::Default)
        } else if same_text(name, "gray") {
            Some(Color::Gray)
        } else if same_text(name, "brown") {
            Some(Color::Brown)
        } else if same_text(name, "orange") {
            Some(Color::Orange)
        } else if same_text(name, "yellow") {
            Some(Color::Yellow)
        } else if same_text(name, "green") {
            Some(Color::Green)
        } else if same_text(name, "blue") {
            Some(Color::Blue)
        } else if same_text(name, "purple") {
            Some(Color::Purple)
        } else if same_text(name, "pink") {
            Some(Color::Pink)
        } else if same_text(name, "red") {
            Some(Color::Red)
        } else if same_text(name, "gray_background") {
            Some(Color::GrayBackground)
        } else if same_text(name, "brown_background") {
            Some(Color::BrownBackground)
        } else if same_text(name, "orange_background") {
            Some(Color::OrangeBackground)
        } else if same_text(name, "yellow_background") {
            Some(Color::YellowBackground)
        } else if same_text(name, "green_background") {
            Some(Color::GreenBackground)
        } else if same_text(name, "blue_background") {
            Some(Color::BlueBackground)
        } else if same_text(name, "purple_background") {
            Some(Color::PurpleBackground)
        } else if same_text(name, "pink_background") {
            Some(Color::PinkBackground)
        } else if same_text(name, "red_background") {
            Some(Color::RedBackground)
        } else {
            None
        }
    }
}

/// Reads the colour under `key`.
pub fn read_optional_color(j: &Json, key: &str) -> (r: Result<Color, Error>)
    ensures
        outcome(r) == optional_color(j@, key@),
{
    match read_optional_str(j, key) {
        Err(e) => Err(e),
        Ok(None) => Ok(Color::Default),
        Ok(Some(name)) => match Color::parse(name.as_str()) {
            Some(color) => Ok(color),
            None => Err(Error::InvalidEnumValue { field: key.to_owned(), received: name }),
        },
    }
}

/// A name names a colour exactly where it is the name of one.
pub proof fn lemma_color_named_exact(name: Seq<char>)
    ensures
        color_named(name) is Some <==> exists|color: Color| color_name(color) == name,
{
    if color_named(name) is Some {
        assert(color_name(color_named(name)->Some_0) == name);
    } else {
        assert forall|color: Color| color_name(color) != name by {}
    }
}

} // verus!
