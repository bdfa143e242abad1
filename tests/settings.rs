use outsaver::config::{Config, Variables};
use outsaver::exception::{ConfigException, MegaException, OutsaverException};
use outsaver::mega::Mega;
use outsaver::message::{confirmation_text, links_in};

fn all() -> Variables {
    Variables {
        discord_token: Some("SECRET-REDACTED".to_string()),
        mega_email: Some("me@example.com".to_string()),
        mega_password: Some("pw".to_string()),
        mega_destination_node: Some("H".to_string()),
    }
}

#[test]
fn complete_settings_load() {
    let c = Config::load(all()).ok().unwrap();
    assert_eq!(c.env.discord.token, "SECRET-REDACTED");
    assert_eq!(c.env.mega.email, "me@example.com");
    assert_eq!(c.env.mega.password, "pw");
    assert_eq!(c.env.mega.destination_node, "H");
}

#[test]
fn first_missing_setting_is_named() {
    let mut v = all();
    v.discord_token = None;
    v.mega_password = None;
    assert_eq!(Config::load(v).err().unwrap().message(), "DISCORD_TOKEN is not set in the environment");
    let mut v = all();
    v.mega_email = None;
    assert_eq!(Config::load(v).err().unwrap().message(), "MEGA_EMAIL is not set in the environment");
    let mut v = all();
    v.mega_password = None;
    assert_eq!(Config::load(v).err().unwrap().message(), "MEGA_PASSWORD is not set in the environment");
    let mut v = all();
    v.mega_destination_node = None;
    assert_eq!(
        Config::load(v).err().unwrap().message(),
        "MEGA_DESTINATION_NODE is not set in the environment"
    );
}

#[test]
fn exceptions_keep_their_message() {
    assert_eq!(ConfigException::new("a").description(), "a");
    assert_eq!(OutsaverException::new("b").to_string(), "b");
    assert_eq!(MegaException::caused_by("Failed: ", "boom").message(), "Failed: boom");
}

#[test]
fn client_builds() {
    assert!(Mega::new().is_ok());
}

#[test]
fn messages_without_the_site_have_no_links() {
    assert_eq!(links_in("look at https://example.com/x"), None);
}

#[test]
fn links_of_a_message_are_listed_in_order() {
    let links = links_in(
        "two: https://outplayed.tv/media/abc and http://outplayed.tv/media/def!",
    )
    .unwrap();
    assert_eq!(links, vec!["https://outplayed.tv/media/abc", "http://outplayed.tv/media/def"]);
}

#[test]
fn confirmation_names_the_count() {
    assert_eq!(confirmation_text(0), "Wow, I found 0 outplayed video. Do you want to save it?");
    assert_eq!(confirmation_text(12), "Wow, I found 12 outplayed video. Do you want to save it?");
}
