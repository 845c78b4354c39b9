//! The words and signs on the buttons that move things up, down, left and
//! right. Which of them a system can show depends on the system.
use vstd::prelude::*;

verus! {

/// The system that the user interface runs on.
#[derive(Copy, Clone, PartialEq, Eq, Debug)]
pub enum Platform {
    /// Windows, and whether it is recent enough to show arrows.
    Windows { arrows_are_supported: bool },
    MacOs,
    Linux,
}

pub open spec fn arrow_up(platform: Platform) -> &'static str {
    match platform {
        Platform::Windows { arrows_are_supported } => if arrows_are_supported {
            "🡹"
        } else {
            "Up"
        },
        Platform::MacOs => "⬆",
        Platform::Linux => "Up",
    }
}

pub open spec fn arrow_down(platform: Platform) -> &'static str {
    match platform {
        Platform::Windows { arrows_are_supported } => if arrows_are_supported {
            "🡻"
        } else {
            "Down"
        },
        Platform::MacOs => "⬇",
        Platform::Linux => "Down",
    }
}

pub open spec fn arrow_left(platform: Platform) -> &'static str {
    match platform {
        Platform::Windows { arrows_are_supported } => if arrows_are_supported {
            "🡸"
        } else {
            "<="
        },
        Platform::MacOs => "⬅",
        Platform::Linux => "<=",
    }
}

pub open spec fn arrow_right(platform: Platform) -> &'static str {
    match platform {
        Platform::Windows { arrows_are_supported } => if arrows_are_supported {
            "🡺"
        } else {
            "=>"
        },
        Platform::MacOs => "⮕",
        Platform::Linux => "=>",
    }
}

pub fn arrow_up_symbol(platform: Platform) -> (symbol: &'static str)
    ensures
        symbol == arrow_up(platform),
{
    match platform {
        Platform::Windows { arrows_are_supported } => {
            if arrows_are_supported {
                "🡹"
            } else {
                "Up"
            }
        },
        Platform::MacOs => "⬆",
        Platform::Linux => "Up",
    }
}

pub fn arrow_down_symbol(platform: Platform) -> (symbol: &'static str)
    ensures
        symbol == arrow_down(platform),
{
    match platform {
        Platform::Windows { arrows_are_supported } => {
            if arrows_are_supported {
                "🡻"
            } else {
                "Down"
            }
        },
        Platform::MacOs => "⬇",
        Platform::Linux => "Down",
    }
}

pub fn arrow_left_symbol(platform: Platform) -> (symbol: &'static str)
    ensures
        symbol == arrow_left(platform),
{
    match platform {
        Platform::Windows { arrows_are_supported } => {
            if arrows_are_supported {
                "🡸"
            } else {
                "<="
            }
        },
        Platform::MacOs => "⬅",
        Platform::Linux => "<=",
    }
}

pub fn arrow_right_symbol(platform: Platform) -> (symbol: &'static str)
    ensures
        symbol == arrow_right(platform),
{
    match platform {
        Platform::Windows { arrows_are_supported } => {
            if arrows_are_supported {
                "🡺"
            } else {
                "=>"
            }
        },
        Platform::MacOs => "⮕",
        Platform::Linux => "=>",
    }
}

} // verus!
