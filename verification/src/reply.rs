//! The fixed replies of the canned commands.

use vstd::prelude::*;

verus! {

/// Which picture of the number four a user asks for.
#[derive(Clone, Copy, Debug, PartialEq, Eq)]
pub enum FourVariant {
    SillyNub,
    SillyNubN,
    McFreakery,
    GeorgeWashington,
    BlackBoi,
    /// Not a picture: the song, which is sent as a file.
    Song,
}

impl FourVariant {
    /// The locator of this variant's picture.
    pub open spec fn url_spec(self) -> Seq<char> {
        match self {
            FourVariant::SillyNub =>
                "https://tenor.com/view/nub-nub-cat-silly-cat-silly-kitty-gif-7773816275616110994"@,
            FourVariant::SillyNubN => "https://aweirddev.github.io/emojis/sillynubn.webp"@,
            FourVariant::BlackBoi => "https://tenor.com/view/four-gif-26151912"@,
            FourVariant::GeorgeWashington =>
                "https://tenor.com/view/4-4-aura-4-finger-4-fingers-4-meme-gif-3022035956605345695"@,
            FourVariant::McFreakery => "https://aweirddev.github.io/emojis/four-mcfreakery.gif"@,
            FourVariant::Song => Seq::empty(),
        }
    }

    /// The locator of this variant's picture. The song has none.
    pub fn url(&self) -> (out: &'static str)
        requires
            *self != FourVariant::Song,
        ensures
            out@ == self.url_spec(),
    {
        match self {
            FourVariant::SillyNub =>
                "https://tenor.com/view/nub-nub-cat-silly-cat-silly-kitty-gif-7773816275616110994",
            FourVariant::SillyNubN => "https://aweirddev.github.io/emojis/sillynubn.webp",
            FourVariant::BlackBoi => "https://tenor.com/view/four-gif-26151912",
            FourVariant::GeorgeWashington =>
                "https://tenor.com/view/4-4-aura-4-finger-4-fingers-4-meme-gif-3022035956605345695",
            FourVariant::McFreakery => "https://aweirddev.github.io/emojis/four-mcfreakery.gif",
            FourVariant::Song => "",
        }
    }
}

impl Default for FourVariant {
    fn default() -> (out: FourVariant)
        ensures
            out == FourVariant::SillyNub,
    {
        FourVariant::SillyNub
    }
}

/// A rating a user may give.
#[derive(Clone, Copy, Debug, PartialEq, Eq)]
pub enum RagebaitRating {
    One,
    Seven,
}

impl RagebaitRating {
    /// The locator of the picture that answers this rating.
    pub open spec fn url_spec(self) -> Seq<char> {
        match self {
            RagebaitRating::One =>
                "https://tenor.com/view/nub-nub-cat-silly-nub-cat-cat-kitty-gif-6600602335070810514"@,
            RagebaitRating::Seven =>
                "https://tenor.com/view/nub-nub-cat-silly-nub-cat-cat-kawaii-gif-6031229182476389667"@,
        }
    }

    /// The locator of the picture that answers this rating.
    pub fn url(&self) -> (out: &'static str)
        ensures
            out@ == self.url_spec(),
    {
        match self {
            RagebaitRating::One =>
                "https://tenor.com/view/nub-nub-cat-silly-nub-cat-cat-kitty-gif-6600602335070810514",
            RagebaitRating::Seven =>
                "https://tenor.com/view/nub-nub-cat-silly-nub-cat-cat-kawaii-gif-6031229182476389667",
        }
    }
}

} // verus!
