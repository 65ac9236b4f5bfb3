//! What the service answers to each command.
//!
//! The caller turns an incoming event into a `Request`, asks `respond` for the
//! `Reply`, and sends it.

use crate::error::CatalogError;
use crate::finder::{found_rows, outcome_view, Found, NubFinder};
use crate::nub::Row;
use crate::reply::{FourVariant, RagebaitRating};
use vstd::prelude::*;
use vstd::string::*;

verus! {

/// The most suggestions that one answer may carry.
pub const SUGGESTION_LIMIT: usize = 25;

/// The commands that the service knows.
#[derive(Clone, Copy, Debug, PartialEq, Eq, Structural)]
pub enum Command {
    Four,
    Nub,
    Unzip,
    You,
    OilUp,
    Jump,
    SadPhone,
    Huge,
    Hello,
    RateRagebait,
}

/// The command of that name, if there is one.
pub open spec fn command_of(name: Seq<char>) -> Option<Command> {
    if name == "four"@ {
        Some(Command::Four)
    } else if name == "nub"@ {
        Some(Command::Nub)
    } else if name == "unzip"@ {
        Some(Command::Unzip)
    } else if name == "you"@ {
        Some(Command::You)
    } else if name == "oil-up"@ {
        Some(Command::OilUp)
    } else if name == "jump"@ {
        Some(Command::Jump)
    } else if name == "sad-phone"@ {
        Some(Command::SadPhone)
    } else if name == "huge"@ {
        Some(Command::Huge)
    } else if name == "hello"@ {
        Some(Command::Hello)
    } else if name == "rate-ragebait"@ {
        Some(Command::RateRagebait)
    } else {
        None
    }
}

/// Whether two texts are the same.
pub fn same_text(a: &str, b: &str) -> (out: bool)
    ensures
        out == (a@ == b@),
{
    let left = a.to_owned();
    let right = b.to_owned();
    left == right
}

/// The command of that name, if there is one.
pub fn command_named(name: &str) -> (out: Option<Command>)
    ensures
        out == command_of(name@),
{
    if same_text(name, "four") {
        Some(Command::Four)
    } else if same_text(name, "nub") {
        Some(Command::Nub)
    } else if same_text(name, "unzip") {
        Some(Command::Unzip)
    } else if same_text(name, "you") {
        Some(Command::You)
    } else if same_text(name, "oil-up") {
        Some(Command::OilUp)
    } else if same_text(name, "jump") {
        Some(Command::Jump)
    } else if same_text(name, "sad-phone") {
        Some(Command::SadPhone)
    } else if same_text(name, "huge") {
        Some(Command::Huge)
    } else if same_text(name, "hello") {
        Some(Command::Hello)
    } else if same_text(name, "rate-ragebait") {
        Some(Command::RateRagebait)
    } else {
        None
    }
}

impl Command {
    /// The locator that answers a command which takes no option.
    pub open spec fn canned_url_spec(self) -> Option<Seq<char>> {
        match self {
            Command::Unzip => Some(
                "https://tenor.com/view/sillynubcat-unzips-unzips-nubcat-gif-17883304668920036659"@,
            ),
            Command::You => Some(
                "https://tenor.com/view/silly-cat-nub-cat-nub-idk-i-don%27t-know-gif-6787708826441883618"@,
            ),
            Command::OilUp => Some(
                "https://tenor.com/view/nub-cat-silly-cat-nubcat-sillynubcat-gif-1800738383738753013"@,
            ),
            Command::Jump => Some(
                "https://tenor.com/view/nub-nubcat-jumping-cat-jump-gif-6086329633128237500"@,
            ),
            Command::SadPhone => Some(
                "https://tenor.com/view/nub-cat-nub-silly-cat-sad-bed-gif-11026855720345092722"@,
            ),
            Command::Huge => Some(
                "https://tenor.com/view/nub-nub-cat-silly-nub-cat-cat-kitty-gif-12385110001808111979"@,
            ),
            Command::Hello => Some(
                "https://tenor.com/view/nub-nub-cat-silly-nub-cat-silly-cat-gif-10510046384014080446"@,
            ),
            _ => None,
        }
    }

    /// The locator that answers a command which takes no option; none for
    /// the commands that take one.
    pub fn canned_url(&self) -> (out: Option<&'static str>)
        ensures
            match out {
                Some(url) => self.canned_url_spec() == Some(url@),
                None => self.canned_url_spec() is None,
            },
    {
        match self {
            Command::Unzip => Some(
                "https://tenor.com/view/sillynubcat-unzips-unzips-nubcat-gif-17883304668920036659",
            ),
            Command::You => Some(
                "https://tenor.com/view/silly-cat-nub-cat-nub-idk-i-don%27t-know-gif-6787708826441883618",
            ),
            Command::OilUp => Some(
                "https://tenor.com/view/nub-cat-silly-cat-nubcat-sillynubcat-gif-1800738383738753013",
            ),
            Command::Jump => Some(
                "https://tenor.com/view/nub-nubcat-jumping-cat-jump-gif-6086329633128237500",
            ),
            Command::SadPhone => Some(
                "https://tenor.com/view/nub-cat-nub-silly-cat-sad-bed-gif-11026855720345092722",
            ),
            Command::Huge => Some(
                "https://tenor.com/view/nub-nub-cat-silly-nub-cat-cat-kitty-gif-12385110001808111979",
            ),
            Command::Hello => Some(
                "https://tenor.com/view/nub-nub-cat-silly-nub-cat-silly-cat-gif-10510046384014080446",
            ),
            _ => None,
        }
    }
}

/// The option that comes with the lookup command.
#[derive(Debug)]
pub enum NubOption {
    /// The user is still typing this text and wants suggestions.
    Typing(String),
    /// The user has sent this text.
    Chosen(String),
    /// An option of another kind.
    Other,
}

/// One command as it came in, with what the user gave.
#[derive(Debug)]
pub enum Request {
    Four(Option<FourVariant>),
    Nub(NubOption),
    /// A command that takes no option.
    Canned(Command),
    Rate(RagebaitRating),
    /// A command that the service does not know.
    Unknown,
}

/// What a `Request` stands for.
pub ghost enum RequestView {
    Four(Option<FourVariant>),
    Typing(Seq<char>),
    Chosen(Seq<char>),
    OtherOption,
    Canned(Command),
    Rate(RagebaitRating),
    Unknown,
}

impl View for Request {
    type V = RequestView;

    open spec fn view(&self) -> RequestView {
        match self {
            Request::Four(variant) => RequestView::Four(*variant),
            Request::Nub(NubOption::Typing(text)) => RequestView::Typing(text@),
            Request::Nub(NubOption::Chosen(text)) => RequestView::Chosen(text@),
            Request::Nub(NubOption::Other) => RequestView::OtherOption,
            Request::Canned(command) => RequestView::Canned(*command),
            Request::Rate(rating) => RequestView::Rate(*rating),
            Request::Unknown => RequestView::Unknown,
        }
    }
}

/// One suggestion: what the user sees and what is sent when it is picked.
#[derive(Clone, Debug)]
pub struct Choice {
    pub name: String,
    pub value: String,
}

impl View for Choice {
    type V = (Seq<char>, Seq<char>);

    open spec fn view(&self) -> (Seq<char>, Seq<char>) {
        (self.name@, self.value@)
    }
}

/// The suggestions that a list of choices stands for.
pub open spec fn choice_views(choices: Seq<Choice>) -> Seq<(Seq<char>, Seq<char>)> {
    Seq::new(choices.len(), |i: int| choices[i]@)
}

/// What the service sends back.
#[derive(Debug)]
pub enum Reply {
    /// Nothing is sent.
    Silence,
    /// A message with this text.
    Message(String),
    /// A message that carries the song as a file.
    Song,
    /// A message with the picture at this locator embedded.
    Picture(String),
    /// Suggestions for the text that the user is typing.
    Suggestions(Vec<Choice>),
}

/// What a `Reply` stands for.
pub ghost enum ReplyView {
    Silence,
    Message(Seq<char>),
    Song,
    Picture(Seq<char>),
    Suggestions(Seq<(Seq<char>, Seq<char>)>),
}

impl View for Reply {
    type V = ReplyView;

    open spec fn view(&self) -> ReplyView {
        match self {
            Reply::Silence => ReplyView::Silence,
            Reply::Message(text) => ReplyView::Message(text@),
            Reply::Song => ReplyView::Song,
            Reply::Picture(url) => ReplyView::Picture(url@),
            Reply::Suggestions(choices) => ReplyView::Suggestions(choice_views(choices@)),
        }
    }
}

/// The mark in front of a text that already is a source.
pub open spec fn marker() -> Seq<char> {
    seq!['n', 'u', 'b', ':']
}

/// Whether the text is a source with the mark in front.
pub open spec fn is_marked(data: Seq<char>) -> bool {
    data.len() >= 4 && data.take(4) == marker()
}

/// What the user sees for a text that already is a source.
pub open spec fn preview_label() -> Seq<char> {
    "shows image: "@
}

/// What is said where a lookup was refused or failed.
pub open spec fn refused_text() -> Seq<char> {
    "i couldn't understand that :("@
}

/// What is said where a lookup finds nothing.
pub open spec fn not_found_text() -> Seq<char> {
    "i couldn't find that nub :("@
}

/// The suggestions for the rows that a search found: the tags to see, the
/// marked source to send, and no more of them than an answer may carry.
pub open spec fn suggestions(rows: Seq<Row>) -> Seq<(Seq<char>, Seq<char>)> {
    Seq::new(
        if rows.len() <= SUGGESTION_LIMIT {
            rows.len()
        } else {
            SUGGESTION_LIMIT as nat
        },
        |i: int| (rows[i].1, marker() + rows[i].0),
    )
}

/// Whether the answer to the request depends on a search.
pub open spec fn needs_search(request: RequestView) -> bool {
    match request {
        RequestView::Typing(data) => !is_marked(data),
        RequestView::Chosen(data) => !is_marked(data),
        _ => false,
    }
}

/// The answer to a request, given the rows that a search for its text found.
/// Where the request needs no search the rows are not looked at.
pub open spec fn reply_to(request: RequestView, rows: Seq<Row>) -> ReplyView {
    match request {
        RequestView::Four(variant) => {
            let variant = match variant {
                Some(v) => v,
                None => FourVariant::SillyNub,
            };
            if variant == FourVariant::Song {
                ReplyView::Song
            } else {
                ReplyView::Message(variant.url_spec())
            }
        },
        RequestView::Typing(data) => if is_marked(data) {
            ReplyView::Suggestions(seq![(preview_label() + data.skip(4), data)])
        } else {
            ReplyView::Suggestions(suggestions(rows))
        },
        RequestView::Chosen(data) => if is_marked(data) {
            ReplyView::Picture(data.skip(4))
        } else if rows.len() > 0 {
            ReplyView::Picture(rows[0].0)
        } else {
            ReplyView::Message(not_found_text())
        },
        RequestView::OtherOption => ReplyView::Silence,
        RequestView::Canned(command) => match command.canned_url_spec() {
            Some(url) => ReplyView::Message(url),
            None => ReplyView::Silence,
        },
        RequestView::Rate(rating) => ReplyView::Message(rating.url_spec()),
        RequestView::Unknown => ReplyView::Silence,
    }
}

/// The source behind the mark, where the text has the mark in front.
pub fn marked_source(data: &str) -> (out: Option<String>)
    ensures
        match out {
            Some(rest) => is_marked(data@) && rest@ == data@.skip(4),
            None => !is_marked(data@),
        },
{
    let n = data.unicode_len();
    if n < 4 {
        return None;
    }
    let head = data.substring_char(0, 4);
    proof {
        reveal_strlit("nub:");
        assert("nub:"@ =~= marker());
        assert(data@.subrange(0, 4) =~= data@.take(4));
        assert(data@.subrange(4, n as int) =~= data@.skip(4));
    }
    if same_text(head, "nub:") {
        Some(data.substring_char(4, n).to_owned())
    } else {
        None
    }
}

/// The suggestions for what a search found.
pub fn suggest(found: &Vec<Found>) -> (out: Vec<Choice>)
    ensures
        choice_views(out@) == suggestions(found_rows(found@)),
{
    let mut out: Vec<Choice> = Vec::new();
    let mut i: usize = 0;
    while i < found.len() && i < SUGGESTION_LIMIT
        invariant
            i <= found.len(),
            i <= SUGGESTION_LIMIT,
            out@.len() == i,
            forall|k: int|
                0 <= k < i ==> (#[trigger] out@[k])@ == (
                    found@[k].tags@,
                    marker() + found@[k].source@,
                ),
        decreases found.len() - i,
    {
        let mut value = String::from_str("nub:");
        value.append(found[i].source.as_str());
        proof {
            reveal_strlit("nub:");
            assert("nub:"@ =~= marker());
        }
        out.push(Choice { name: found[i].tags.clone(), value });
        i += 1;
    }
    proof {
        assert(choice_views(out@) =~= suggestions(found_rows(found@)));
    }
    out
}

/// The answer to a request, given what a search for its text found.
pub fn reply_from(request: &Request, found: &Vec<Found>) -> (out: Reply)
    ensures
        out@ == reply_to(request@, found_rows(found@)),
{
    match request {
        Request::Four(variant) => {
            let variant = match variant {
                Some(v) => *v,
                None => FourVariant::default(),
            };
            match variant {
                FourVariant::Song => Reply::Song,
                _ => Reply::Message(variant.url().to_owned()),
            }
        },
        Request::Nub(NubOption::Typing(data)) => match marked_source(data.as_str()) {
            Some(rest) => {
                let mut name = String::from_str("shows image: ");
                name.append(rest.as_str());
                let mut choices: Vec<Choice> = Vec::new();
                choices.push(Choice { name, value: data.clone() });
                proof {
                    assert(choice_views(choices@) =~= seq![
                        (preview_label() + data@.skip(4), data@),
                    ]);
                }
                Reply::Suggestions(choices)
            },
            None => Reply::Suggestions(suggest(found)),
        },
        Request::Nub(NubOption::Chosen(data)) => match marked_source(data.as_str()) {
            Some(rest) => Reply::Picture(rest),
            None => if found.len() > 0 {
                Reply::Picture(found[0].source.clone())
            } else {
                Reply::Message("i couldn't find that nub :(".to_owned())
            },
        },
        Request::Nub(NubOption::Other) => Reply::Silence,
        Request::Canned(command) => match command.canned_url() {
            Some(url) => Reply::Message(url.to_owned()),
            None => Reply::Silence,
        },
        Request::Rate(rating) => Reply::Message(rating.url().to_owned()),
        Request::Unknown => Reply::Silence,
    }
}

/// The text to search for, where the answer to the request depends on a search.
pub fn query_of(request: &Request) -> (out: Option<&str>)
    ensures
        match out {
            Some(q) => needs_search(request@) && (request@ == RequestView::Typing(q@) || request@
                == RequestView::Chosen(q@)),
            None => !needs_search(request@),
        },
{
    match request {
        Request::Nub(NubOption::Typing(data)) => match marked_source(data.as_str()) {
            Some(_) => None,
            None => Some(data.as_str()),
        },
        Request::Nub(NubOption::Chosen(data)) => match marked_source(data.as_str()) {
            Some(_) => None,
            None => Some(data.as_str()),
        },
        _ => None,
    }
}

/// The answer to a request, given how the search for its text ended. Where
/// the request needs no search the outcome is not looked at. Where the search
/// was refused or failed, the user is told so: with a message, or, while
/// typing, with one suggestion that says it and sends the text as it was typed.
pub open spec fn reply_after(request: RequestView, searched: Result<Seq<Row>, CatalogError>) -> ReplyView {
    match searched {
        Ok(rows) => reply_to(request, rows),
        Err(_) => match request {
            RequestView::Typing(data) => if is_marked(data) {
                reply_to(request, Seq::empty())
            } else {
                ReplyView::Suggestions(seq![(refused_text(), data)])
            },
            RequestView::Chosen(data) => if is_marked(data) {
                reply_to(request, Seq::empty())
            } else {
                ReplyView::Message(refused_text())
            },
            _ => reply_to(request, Seq::empty()),
        },
    }
}

/// The text to search for; empty where the request has none.
pub open spec fn query_text(request: RequestView) -> Seq<char> {
    match request {
        RequestView::Typing(data) => data,
        RequestView::Chosen(data) => data,
        _ => Seq::empty(),
    }
}

/// The answer to a request, given how the search for its text ended.
pub fn settle(request: &Request, searched: &Result<Vec<Found>, CatalogError>) -> (out: Reply)
    ensures
        out@ == reply_after(request@, outcome_view(*searched)),
{
    match searched {
        Ok(found) => reply_from(request, found),
        Err(_) => match query_of(request) {
            Some(q) => match request {
                Request::Nub(NubOption::Typing(_)) => {
                    let mut choices: Vec<Choice> = Vec::new();
                    choices.push(
                        Choice { name: "i couldn't understand that :(".to_owned(), value: q.to_owned() },
                    );
                    proof {
                        assert(choice_views(choices@) =~= seq![(refused_text(), q@)]);
                    }
                    Reply::Suggestions(choices)
                },
                _ => Reply::Message("i couldn't understand that :(".to_owned()),
            },
            None => {
                let none: Vec<Found> = Vec::new();
                proof {
                    assert(found_rows(none@) =~= Seq::<Row>::empty());
                }
                reply_from(request, &none)
            },
        },
    }
}

/// Answers a request, searching the index where the answer depends on it.
/// Without a search the answer is fixed by the request. With one, the text
/// of the request is what is searched for, and the answer is the one that
/// `settle` gives for the outcome of that search.
pub fn respond(finder: &NubFinder, request: &Request) -> (out: Reply)
    ensures
        !needs_search(request@) ==> out@ == reply_to(request@, Seq::empty()),
        needs_search(request@) ==> exists|searched: Result<Seq<Row>, CatalogError>|
            #[trigger] finder.search_post(query_text(request@), searched) && out@ == reply_after(
                request@,
                searched,
            ),
{
    match query_of(request) {
        Some(q) => {
            let searched = finder.search(q);
            let reply = settle(request, &searched);
            proof {
                assert(finder.search_post(query_text(request@), outcome_view(searched)));
            }
            reply
        },
        None => {
            let none: Vec<Found> = Vec::new();
            proof {
                assert(found_rows(none@) =~= Seq::<Row>::empty());
            }
            reply_from(request, &none)
        },
    }
}

} // verus!
