//! The kinds and colours of the buttons and icons, and the style classes
//! that stand for them.

use crate::text::same_text;
use vstd::prelude::*;

verus! {

pub const BUTTON_BASE: &'static str = "flex text-white font-bold py-1 px-1 rounded";

pub const ICON_BASE: &'static str = "icon flex text-white font-bold py-1 px-1 rounded";

/// What a button does in its form.
#[derive(Clone, Copy, Debug, PartialEq, Eq)]
pub enum ButtonKind {
    Button,
    Reset,
    Submit,
}

impl ButtonKind {
    pub open spec fn spec_name(self) -> Seq<char> {
        match self {
            ButtonKind::Button => "Button"@,
            ButtonKind::Reset => "Reset"@,
            ButtonKind::Submit => "Submit"@,
        }
    }

    /// The kind's name.
    pub fn name(&self) -> (name: &'static str)
        ensures
            name@ == self.spec_name(),
    {
        match self {
            ButtonKind::Button => "Button",
            ButtonKind::Reset => "Reset",
            ButtonKind::Submit => "Submit",
        }
    }

    /// The kind of the given name, if it names one.
    pub fn parse(name: &str) -> (kind: Option<ButtonKind>)
        ensures
            kind matches Some(k) ==> k.spec_name() == name@,
            kind is None ==> forall|k: ButtonKind| k.spec_name() != name@,
    {
        if same_text(name, "Button") {
            Some(ButtonKind::Button)
        } else if same_text(name, "Reset") {
            Some(ButtonKind::Reset)
        } else if same_text(name, "Submit") {
            Some(ButtonKind::Submit)
        } else {
            None
        }
    }
}

/// The colour of a button or an icon.
#[derive(Clone, Copy, Debug, PartialEq, Eq)]
pub enum IconColour {
    Red,
    Blue,
    Green,
    Gray,
    Disabled,
}

impl IconColour {
    /// The colour where none is asked for.
    pub open spec fn or_blue(colour: Option<IconColour>) -> IconColour {
        match colour {
            Some(c) => c,
            None => IconColour::Blue,
        }
    }

    /// The class that paints an icon.
    pub open spec fn spec_background(self) -> Seq<char> {
        match self {
            IconColour::Blue => " bg-blue-500"@,
            IconColour::Red => " bg-red-500"@,
            IconColour::Green => " bg-green-500"@,
            IconColour::Gray => " bg-gray-500"@,
            IconColour::Disabled => " bg-gray-300"@,
        }
    }

    /// The class that paints a button under the pointer.
    pub open spec fn spec_hover(self) -> Seq<char> {
        match self {
            IconColour::Blue => " hover:bg-blue-700"@,
            IconColour::Red => " hover:bg-red-700"@,
            IconColour::Green => " hover:bg-green-700"@,
            IconColour::Gray => " hover:bg-gray-700"@,
            IconColour::Disabled => " hover:bg-gray-500"@,
        }
    }

    fn background(&self) -> (class: &'static str)
        ensures
            class@ == self.spec_background(),
    {
        match self {
            IconColour::Blue => " bg-blue-500",
            IconColour::Red => " bg-red-500",
            IconColour::Green => " bg-green-500",
            IconColour::Gray => " bg-gray-500",
            IconColour::Disabled => " bg-gray-300",
        }
    }

    fn hover(&self) -> (class: &'static str)
        ensures
            class@ == self.spec_hover(),
    {
        match self {
            IconColour::Blue => " hover:bg-blue-700",
            IconColour::Red => " hover:bg-red-700",
            IconColour::Green => " hover:bg-green-700",
            IconColour::Gray => " hover:bg-gray-700",
            IconColour::Disabled => " hover:bg-gray-500",
        }
    }

    /// The classes of an icon button of the given colour, blue if none is
    /// given.
    pub fn button_class(colour: Option<IconColour>) -> (class: String)
        ensures
            class@ == BUTTON_BASE@ + IconColour::or_blue(colour).spec_background()
                + IconColour::or_blue(colour).spec_hover(),
    {
        let colour = match colour {
            Some(c) => c,
            None => IconColour::Blue,
        };
        String::from_str(BUTTON_BASE).concat(colour.background()).concat(colour.hover())
    }

    /// The classes of an icon of the given colour, blue if none is given.
    pub fn icon_class(colour: Option<IconColour>) -> (class: String)
        ensures
            class@ == ICON_BASE@ + IconColour::or_blue(colour).spec_background(),
    {
        let colour = match colour {
            Some(c) => c,
            None => IconColour::Blue,
        };
        String::from_str(ICON_BASE).concat(colour.background())
    }
}

} // verus!
