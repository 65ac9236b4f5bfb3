use nub_search::dispatch::{
    command_named, marked_source, query_of, reply_from, respond, same_text, settle, suggest,
    Choice, Command, NubOption, Reply, Request, SUGGESTION_LIMIT,
};
use nub_search::error::CatalogError;
use nub_search::finder::{Found, NubFinder};
use nub_search::nub::Nub;
use nub_search::reply::{FourVariant, RagebaitRating};

fn nub(source: &str, tags: &[&str]) -> Nub {
    Nub { source: source.to_string(), tags: tags.iter().map(|t| t.to_string()).collect() }
}

fn found(source: &str, tags: &str) -> Found {
    Found { source: source.to_string(), tags: tags.to_string() }
}

fn plain(choices: &[Choice]) -> Vec<(String, String)> {
    choices.iter().map(|c| (c.name.clone(), c.value.clone())).collect()
}

fn pair(name: &str, value: &str) -> (String, String) {
    (name.to_string(), value.to_string())
}

fn message(reply: Reply) -> String {
    match reply {
        Reply::Message(text) => text,
        other => panic!("not a message: {other:?}"),
    }
}

fn picture(reply: Reply) -> String {
    match reply {
        Reply::Picture(url) => url,
        other => panic!("not a picture: {other:?}"),
    }
}

fn choices(reply: Reply) -> Vec<(String, String)> {
    match reply {
        Reply::Suggestions(list) => plain(&list),
        other => panic!("not suggestions: {other:?}"),
    }
}

fn typing(text: &str) -> Request {
    Request::Nub(NubOption::Typing(text.to_string()))
}

fn chosen(text: &str) -> Request {
    Request::Nub(NubOption::Chosen(text.to_string()))
}

fn two_item_finder() -> NubFinder {
    let mut finder = NubFinder::new().unwrap();
    finder
        .commit(vec![nub("u1", &["happy", "cat"]), nub("u2", &["sad", "dog"])])
        .unwrap();
    finder
}

#[test]
fn texts_are_compared_whole() {
    assert!(same_text("nub", "nub"));
    assert!(same_text("", ""));
    assert!(!same_text("nub", "nubs"));
    assert!(!same_text("nub", "Nub"));
    assert!(!same_text("", "a"));
}

#[test]
fn every_command_is_known_by_its_name() {
    assert_eq!(command_named("four"), Some(Command::Four));
    assert_eq!(command_named("nub"), Some(Command::Nub));
    assert_eq!(command_named("unzip"), Some(Command::Unzip));
    assert_eq!(command_named("you"), Some(Command::You));
    assert_eq!(command_named("oil-up"), Some(Command::OilUp));
    assert_eq!(command_named("jump"), Some(Command::Jump));
    assert_eq!(command_named("sad-phone"), Some(Command::SadPhone));
    assert_eq!(command_named("huge"), Some(Command::Huge));
    assert_eq!(command_named("hello"), Some(Command::Hello));
    assert_eq!(command_named("rate-ragebait"), Some(Command::RateRagebait));
}

#[test]
fn other_names_are_no_command() {
    assert_eq!(command_named(""), None);
    assert_eq!(command_named("Four"), None);
    assert_eq!(command_named("oil_up"), None);
    assert_eq!(command_named("nub "), None);
}

#[test]
fn commands_without_option_have_a_fixed_answer() {
    assert_eq!(
        Command::Unzip.canned_url(),
        Some("https://tenor.com/view/sillynubcat-unzips-unzips-nubcat-gif-17883304668920036659")
    );
    assert_eq!(
        Command::You.canned_url(),
        Some("https://tenor.com/view/silly-cat-nub-cat-nub-idk-i-don%27t-know-gif-6787708826441883618")
    );
    assert_eq!(
        Command::OilUp.canned_url(),
        Some("https://tenor.com/view/nub-cat-silly-cat-nubcat-sillynubcat-gif-1800738383738753013")
    );
    assert_eq!(
        Command::Jump.canned_url(),
        Some("https://tenor.com/view/nub-nubcat-jumping-cat-jump-gif-6086329633128237500")
    );
    assert_eq!(
        Command::SadPhone.canned_url(),
        Some("https://tenor.com/view/nub-cat-nub-silly-cat-sad-bed-gif-11026855720345092722")
    );
    assert_eq!(
        Command::Huge.canned_url(),
        Some("https://tenor.com/view/nub-nub-cat-silly-nub-cat-cat-kitty-gif-12385110001808111979")
    );
    assert_eq!(
        Command::Hello.canned_url(),
        Some("https://tenor.com/view/nub-nub-cat-silly-nub-cat-silly-cat-gif-10510046384014080446")
    );
    assert_eq!(Command::Four.canned_url(), None);
    assert_eq!(Command::Nub.canned_url(), None);
    assert_eq!(Command::RateRagebait.canned_url(), None);
}

#[test]
fn the_mark_is_taken_off_a_source() {
    assert_eq!(marked_source("nub:u1"), Some("u1".to_string()));
    assert_eq!(marked_source("nub:"), Some(String::new()));
    assert_eq!(marked_source("nub:https://example.org/a.gif"), Some("https://example.org/a.gif".to_string()));
    assert_eq!(marked_source("nub:caf\u{e9}"), Some("caf\u{e9}".to_string()));
}

#[test]
fn a_text_without_the_mark_is_a_query() {
    assert_eq!(marked_source(""), None);
    assert_eq!(marked_source("nub"), None);
    assert_eq!(marked_source("cat"), None);
    assert_eq!(marked_source("Nub:u1"), None);
    assert_eq!(marked_source(" nub:u1"), None);
    assert_eq!(marked_source("\u{e9}\u{e9}\u{e9}\u{e9}"), None);
}

#[test]
fn suggestions_show_the_tags_and_send_the_marked_source() {
    let list = suggest(&vec![found("u1", "happy, cat"), found("u2", "sad, dog")]);
    assert_eq!(plain(&list), vec![pair("happy, cat", "nub:u1"), pair("sad, dog", "nub:u2")]);
    assert!(suggest(&Vec::new()).is_empty());
}

#[test]
fn no_more_suggestions_than_an_answer_carries() {
    let many: Vec<Found> = (0..30).map(|i| found(&format!("u{i}"), "cat")).collect();
    let list = suggest(&many);
    assert_eq!(SUGGESTION_LIMIT, 25);
    assert_eq!(list.len(), 25);
    assert_eq!(list[24].value, "nub:u24");
}

#[test]
fn four_answers_with_the_picture_of_the_variant() {
    let none: Vec<Found> = Vec::new();
    assert_eq!(
        message(reply_from(&Request::Four(None), &none)),
        "https://tenor.com/view/nub-nub-cat-silly-cat-silly-kitty-gif-7773816275616110994"
    );
    assert_eq!(
        message(reply_from(&Request::Four(Some(FourVariant::BlackBoi)), &none)),
        "https://tenor.com/view/four-gif-26151912"
    );
    assert!(matches!(reply_from(&Request::Four(Some(FourVariant::Song)), &none), Reply::Song));
}

#[test]
fn rating_and_canned_commands_answer_with_a_message() {
    let none: Vec<Found> = Vec::new();
    assert_eq!(
        message(reply_from(&Request::Rate(RagebaitRating::Seven), &none)),
        "https://tenor.com/view/nub-nub-cat-silly-nub-cat-cat-kawaii-gif-6031229182476389667"
    );
    assert_eq!(
        message(reply_from(&Request::Canned(Command::Jump), &none)),
        "https://tenor.com/view/nub-nubcat-jumping-cat-jump-gif-6086329633128237500"
    );
    assert!(matches!(reply_from(&Request::Canned(Command::Nub), &none), Reply::Silence));
    assert!(matches!(reply_from(&Request::Unknown, &none), Reply::Silence));
    assert!(matches!(reply_from(&Request::Nub(NubOption::Other), &none), Reply::Silence));
}

#[test]
fn typing_a_marked_source_previews_it() {
    let ignored = vec![found("u9", "cat")];
    assert_eq!(
        choices(reply_from(&typing("nub:u1"), &ignored)),
        vec![pair("shows image: u1", "nub:u1")]
    );
}

#[test]
fn typing_a_query_suggests_what_was_found() {
    let results = vec![found("u1", "happy, cat")];
    assert_eq!(choices(reply_from(&typing("cat"), &results)), vec![pair("happy, cat", "nub:u1")]);
    assert!(choices(reply_from(&typing("cat"), &Vec::new())).is_empty());
}

#[test]
fn choosing_shows_the_source_or_the_best_match() {
    let results = vec![found("u1", "happy, cat"), found("u2", "sad, dog")];
    assert_eq!(picture(reply_from(&chosen("nub:u7"), &results)), "u7");
    assert_eq!(picture(reply_from(&chosen("cat"), &results)), "u1");
    assert_eq!(message(reply_from(&chosen("cat"), &Vec::new())), "i couldn't find that nub :(");
}

#[test]
fn only_unmarked_texts_are_searched_for() {
    assert_eq!(query_of(&typing("cat")), Some("cat"));
    assert_eq!(query_of(&chosen("sad dog")), Some("sad dog"));
    assert_eq!(query_of(&typing("nub:u1")), None);
    assert_eq!(query_of(&chosen("nub:u1")), None);
    assert_eq!(query_of(&Request::Four(None)), None);
    assert_eq!(query_of(&Request::Unknown), None);
}

#[test]
fn respond_searches_the_index() {
    let finder = two_item_finder();
    assert_eq!(choices(respond(&finder, &typing("cat"))), vec![pair("happy, cat", "nub:u1")]);
    assert_eq!(picture(respond(&finder, &chosen("dog"))), "u2");
    assert_eq!(picture(respond(&finder, &chosen("u1"))), "u1");
    assert_eq!(message(respond(&finder, &chosen("bird"))), "i couldn't find that nub :(");
}

#[test]
fn respond_needs_no_index_for_a_marked_source() {
    let finder = NubFinder::new().unwrap();
    assert_eq!(picture(respond(&finder, &chosen("nub:u5"))), "u5");
    assert_eq!(choices(respond(&finder, &typing("nub:u5"))), vec![pair("shows image: u5", "nub:u5")]);
    assert!(matches!(respond(&finder, &Request::Four(Some(FourVariant::Song))), Reply::Song));
}

#[test]
fn respond_tells_the_user_of_a_refused_query() {
    let finder = two_item_finder();
    assert_eq!(message(respond(&finder, &chosen("cat AND"))), "i couldn't understand that :(");
    assert_eq!(message(respond(&finder, &chosen(""))), "i couldn't understand that :(");
    assert_eq!(
        choices(respond(&finder, &typing("cat AND"))),
        vec![pair("i couldn't understand that :(", "cat AND")]
    );
    assert_eq!(choices(respond(&finder, &typing(""))), vec![pair("i couldn't understand that :(", "")]);
}

#[test]
fn settle_answers_every_outcome_of_a_search() {
    let results = vec![found("u1", "happy, cat"), found("u2", "sad, dog")];
    assert_eq!(picture(settle(&chosen("cat"), &Ok(results.clone()))), "u1");
    assert_eq!(
        choices(settle(&typing("cat"), &Ok(results))),
        vec![pair("happy, cat", "nub:u1"), pair("sad, dog", "nub:u2")]
    );
    assert_eq!(message(settle(&chosen("cat"), &Ok(Vec::new()))), "i couldn't find that nub :(");
    assert_eq!(
        message(settle(&chosen("cat"), &Err(CatalogError::Query))),
        "i couldn't understand that :("
    );
    assert_eq!(
        choices(settle(&typing("ca("), &Err(CatalogError::Query))),
        vec![pair("i couldn't understand that :(", "ca(")]
    );
}

#[test]
fn settle_needs_no_search_for_the_other_requests() {
    let failed = Err(CatalogError::Query);
    assert_eq!(picture(settle(&chosen("nub:u7"), &failed)), "u7");
    assert_eq!(choices(settle(&typing("nub:u7"), &failed)), vec![pair("shows image: u7", "nub:u7")]);
    assert!(matches!(settle(&Request::Four(Some(FourVariant::Song)), &failed), Reply::Song));
    assert!(matches!(settle(&Request::Unknown, &failed), Reply::Silence));
    assert_eq!(
        message(settle(&Request::Rate(RagebaitRating::One), &failed)),
        "https://tenor.com/view/nub-nub-cat-silly-nub-cat-cat-kitty-gif-6600602335070810514"
    );
}
