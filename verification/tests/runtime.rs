use rustygolem::broadcast::observation_failed;
use rustygolem::dispatch::Slot;
use rustygolem::golem::Phase;
use rustygolem::error::{Error, WrapError};
use rustygolem::golem::{
    first_conflict, init_plugin, resolve_plugins, Golem, GolemConfig, Initialised, PluginKind,
};
use rustygolem::handshake::DEFAULT_TIMEOUT_SECS;
use rustygolem::message::{ChatMessage, Command, Origin, OutboundEnvelope};
use rustygolem::plugin::PluginHandle;
use rustygolem::plugin::Blacklist;
use rustygolem::plugins::{dispatch_round, handle_of, invoke, Echo, Plugin};
use rustygolem::supervisor::{Supervision, TaskEvent};
use rustygolem::text::with_target;

fn config(plugins: &[&str], blacklist: &[&str]) -> GolemConfig {
    GolemConfig {
        blacklisted_users: blacklist.iter().map(|n| n.to_string()).collect(),
        plugins: plugins.iter().map(|n| n.to_string()).collect(),
        sasl_password: None,
        server_bind_address: "0.0.0.0".to_string(),
        server_bind_port: 8000,
    }
}

fn golem(plugins: &[&str], blacklist: &[&str]) -> Golem {
    let conf = config(plugins, blacklist);
    let kinds = resolve_plugins(&conf.plugins).unwrap();
    let inits = kinds.into_iter().map(|k| Initialised::from(k.handle())).collect();
    Golem::new_from_config("golem".to_string(), conf, inits)
}

fn text(source: &str, target: &str, body: &str) -> ChatMessage {
    ChatMessage {
        command: Command::Text,
        source: Some(source.to_string()),
        target: Some(target.to_string()),
        body: body.to_string(),
    }
}

#[test]
fn known_plugin_names() {
    assert_eq!(init_plugin(&"crypto".to_string()), Ok(PluginKind::Crypto));
    assert_eq!(init_plugin(&"ctcp".to_string()), Ok(PluginKind::Ctcp));
    assert_eq!(init_plugin(&"echo".to_string()), Ok(PluginKind::Echo));
    assert_eq!(init_plugin(&"joke".to_string()), Ok(PluginKind::Joke));
    assert_eq!(init_plugin(&"republican_calendar".to_string()), Ok(PluginKind::RepublicanCalendar));
    assert_eq!(init_plugin(&"twitch".to_string()), Ok(PluginKind::Twitch));
    assert_eq!(init_plugin(&"url".to_string()), Ok(PluginKind::Url));
    assert_eq!(
        init_plugin(&"date".to_string()),
        Err(Error::Synthetic("Unknown plugin name: date".to_string()))
    );
}

#[test]
fn plugin_kind_handles() {
    assert_eq!(PluginKind::RepublicanCalendar.handle(), PluginHandle::new("date", false).unwrap());
    assert_eq!(PluginKind::Url.handle(), PluginHandle::new("url", true).unwrap());
    assert_eq!(PluginKind::Echo.handle(), PluginHandle::new("echo", false).unwrap());
    assert_eq!(PluginKind::Crypto.handle(), PluginHandle::new("crypto", false).unwrap());
    assert_eq!(PluginKind::Ctcp.handle(), PluginHandle::new("ctcp", false).unwrap());
    assert_eq!(PluginKind::Joke.handle(), PluginHandle::new("joke", false).unwrap());
    assert_eq!(PluginKind::Twitch.handle(), PluginHandle::new("twitch", false).unwrap());
}

#[test]
fn first_unknown_plugin_fails_startup() {
    let names = vec!["echo".to_string(), "nope".to_string(), "url".to_string(), "neither".to_string()];
    assert_eq!(
        resolve_plugins(&names),
        Err(Error::Synthetic("Unknown plugin name: nope".to_string()))
    );
    assert_eq!(
        resolve_plugins(&vec!["url".to_string(), "echo".to_string()]),
        Ok(vec![PluginKind::Url, PluginKind::Echo])
    );
    assert_eq!(resolve_plugins(&vec![]), Ok(vec![]));
}

#[test]
fn runtime_is_composed_in_order() {
    let g = golem(&["echo", "url", "republican_calendar"], &["troll"]);
    let names: Vec<&str> = g.plugins.iter().map(|p| p.name.as_str()).collect();
    assert_eq!(names, vec!["echo", "url", "date"]);
    assert_eq!(g.blacklist.names, vec!["troll".to_string()]);
    assert_eq!(g.handshake.nickname, "golem");
    assert_eq!(g.handshake.password, None);
    assert_eq!(g.handshake.timeout_secs, DEFAULT_TIMEOUT_SECS);
    assert_eq!(g.router, None);
    assert_eq!(g.run_server(), None);
    assert_eq!(g.server_bind_address, "0.0.0.0");
    assert_eq!(g.server_bind_port, 8000);
}

#[test]
fn routes_are_merged_in_insertion_order() {
    let inits = vec![
        Initialised::from(PluginKind::Echo.handle()),
        Initialised { plugin: PluginKind::Twitch.handle(), router: Some(vec!["/touitche/coucou".to_string()]) },
        Initialised { plugin: PluginKind::Joke.handle(), router: None },
        Initialised {
            plugin: PluginKind::Url.handle(),
            router: Some(vec!["/a".to_string(), "/b".to_string()]),
        },
    ];
    let g = Golem::new_from_config("golem".to_string(), config(&[], &[]), inits);
    let expected = vec!["/touitche/coucou".to_string(), "/a".to_string(), "/b".to_string()];
    assert_eq!(g.router, Some(expected.clone()));
    assert_eq!(g.run_server(), Some(&expected));
    assert_eq!(g.plugins.len(), 4);
}

#[test]
fn runtime_round_wraps_faults() {
    let g = golem(&["echo", "url"], &["troll"]);
    let msg = text("troll", "#chan", "see http://x");
    assert_eq!(g.recipients(&msg), vec![false, true]);
    let slots = vec![Slot::Empty, Slot::Failure(Error::Generic("x".to_string()))];
    assert_eq!(
        g.recv_irc_messages(&msg, &slots),
        Err(Error::Wrapped {
            source: "Plugin error from Generic error".to_string(),
            ctx: "Plugin error !".to_string()
        })
    );
    assert_eq!(
        g.plugins_in_messages(&msg, &slots),
        Err(Error::Wrapped {
            source: "Generic error".to_string(),
            ctx: "in_message error from plugin url".to_string()
        })
    );
    let reply = ChatMessage::text("#chan", "title".to_string());
    let slots = vec![Slot::Empty, Slot::Reply(Some(reply.clone()))];
    let out = g.recv_irc_messages(&msg, &slots).unwrap();
    assert_eq!(out, vec![OutboundEnvelope { origin: Origin::Plugin("url".to_string()), message: reply.clone() }]);
    let plan = g.outbound_message(&out[0]);
    assert_eq!(plan.notify, vec![true, false]);
    assert_eq!(plan.wire, reply);
}

#[test]
fn runtime_supervision() {
    let g = golem(&["echo", "twitch"], &[]);
    let m = ChatMessage::text("#chan", "live".to_string());
    assert_eq!(
        g.run_plugins(1, TaskEvent::Emitted(m.clone())),
        Some(Supervision::Publish(OutboundEnvelope { origin: Origin::Plugin("twitch".to_string()), message: m }))
    );
    assert_eq!(g.run_plugins(0, TaskEvent::Returned), Some(Supervision::Retire));
    assert_eq!(
        g.run_plugins(0, TaskEvent::Failed(Error::Generic("x".to_string()))),
        Some(Supervision::Abort(Error::Wrapped {
            source: "Generic error".to_string(),
            ctx: "Plugin echo.run() failed".to_string()
        }))
    );
    assert_eq!(g.run_plugins(2, TaskEvent::Returned), None);
}

#[test]
fn error_texts() {
    assert_eq!(Error::Synthetic("oops".to_string()).message(), "Generic plugin error oops");
    assert_eq!(
        Error::Wrapped { source: "inner".to_string(), ctx: "outer".to_string() }.message(),
        "Plugin error from inner"
    );
    assert_eq!(Error::Generic("whatever".to_string()).message(), "Generic error");
    assert_eq!(
        Error::Synthetic("oops".to_string()).within("ctx".to_string()),
        Error::Wrapped { source: "Generic plugin error oops".to_string(), ctx: "ctx".to_string() }
    );
    let e = Error::Wrapped { source: "a".to_string(), ctx: "b".to_string() };
    assert_eq!(e.clone(), e);
}

#[test]
fn wrap_foreign_failure() {
    let ok: Result<u8, String> = Ok(3);
    assert_eq!(ok.wrap(), Ok(3));
    let err: Result<u8, String> = Err("disk on fire".to_string());
    assert_eq!(err.wrap(), Err(Error::Generic("disk on fire".to_string())));
}

#[test]
fn with_target_prefixes_the_target() {
    assert_eq!(with_target("hello", &Some("charlie")), "charlie: hello");
    assert_eq!(with_target("hello", &None), "hello");
    assert_eq!(with_target("", &Some("")), ": ");
}

#[test]
fn response_target_prefers_channel() {
    assert_eq!(text("ada", "#channel", "Hi").response_target(), Some(&"#channel".to_string()));
    assert_eq!(text("ada", "&local", "Hi").response_target(), Some(&"&local".to_string()));
    assert_eq!(text("ada", "+modeless", "Hi").response_target(), Some(&"+modeless".to_string()));
    assert_eq!(text("ada", "!safe", "Hi").response_target(), Some(&"!safe".to_string()));
    assert_eq!(text("ada", "betsy", "betsy: hi").response_target(), Some(&"ada".to_string()));
    assert_eq!(text("ada", "", "hi").response_target(), Some(&"ada".to_string()));
    let mut notice = text("ada", "#channel", "Hi");
    notice.command = Command::Notice;
    assert_eq!(notice.response_target(), Some(&"#channel".to_string()));
    let mut other = text("ada", "#channel", "Hi");
    other.command = Command::Other;
    assert_eq!(other.response_target(), Some(&"ada".to_string()));
    let mut anonymous = text("ada", "betsy", "Hi");
    anonymous.source = None;
    assert_eq!(anonymous.response_target(), None);
}

#[test]
fn echo_plugin_contract() {
    let echo = Echo {};
    assert_eq!(echo.get_name(), "echo");
    assert!(echo.ignore_blacklisted_users());
    assert_eq!(handle_of(&echo), PluginHandle::new("echo", false).unwrap());
    assert_eq!(
        echo.in_message(&text("ada", "#chan", "coucou")),
        Ok(Some(ChatMessage::text("#chan", "echo - coucou".to_string())))
    );
    assert_eq!(
        echo.in_message(&text("ada", "golem", "psst")),
        Ok(Some(ChatMessage::text("ada", "echo - psst".to_string())))
    );
    let mut notice = text("ada", "#chan", "coucou");
    notice.command = Command::Notice;
    assert_eq!(echo.in_message(&notice), Ok(None));
    let mut anonymous = text("ada", "golem", "psst");
    anonymous.source = None;
    assert_eq!(echo.in_message(&anonymous), Ok(None));
    assert_eq!(echo.out_message(&notice), Ok(()));
    assert_eq!(Echo::heartbeat(), ChatMessage::text("##gougoutest", "still alive!".to_string()));
}

#[test]
fn sequential_round_over_plugins() {
    let plugins = vec![Echo {}, Echo {}];
    let list = Blacklist::new(vec!["troll".to_string()]);
    let out = dispatch_round(&plugins, &list, &text("ada", "#chan", "coucou")).unwrap();
    let expected = OutboundEnvelope {
        origin: Origin::Plugin("echo".to_string()),
        message: ChatMessage::text("#chan", "echo - coucou".to_string()),
    };
    assert_eq!(out, vec![expected.clone(), expected]);
    // nobody is handed a message from a blacklisted source
    assert_eq!(dispatch_round(&plugins, &list, &text("troll", "#chan", "coucou")), Ok(vec![]));
    // nothing to echo
    let mut notice = text("ada", "#chan", "coucou");
    notice.command = Command::Notice;
    assert_eq!(dispatch_round(&plugins, &list, &notice), Ok(vec![]));
    assert_eq!(
        invoke(&Echo {}, &text("ada", "golem", "psst")),
        Slot::Reply(Some(ChatMessage::text("ada", "echo - psst".to_string())))
    );
    assert_eq!(invoke(&Echo {}, &notice), Slot::Reply(None));
}

#[test]
fn conflicting_routes_are_found() {
    let table = |paths: &[&str]| -> Vec<String> { paths.iter().map(|p| p.to_string()).collect() };
    assert_eq!(first_conflict(&table(&[])), None);
    assert_eq!(first_conflict(&table(&["/a"])), None);
    assert_eq!(first_conflict(&table(&["/a", "/b", "/c"])), None);
    assert_eq!(first_conflict(&table(&["/a", "/b", "/a"])), Some(2));
    assert_eq!(first_conflict(&table(&["/a", "/a", "/a"])), Some(1));
    assert_eq!(first_conflict(&table(&["/a", "/b", "/c", "/b", "/a"])), Some(3));
}

#[test]
fn end_of_inbound_stream_stops_the_runtime() {
    let g = golem(&["echo"], &[]);
    assert_eq!(
        g.inbound_closed(Phase::Authenticating),
        Error::Synthetic("Waited for message failed".to_string())
    );
    assert_eq!(
        g.inbound_closed(Phase::Dispatching),
        Error::Synthetic("IRC receiving stream exited".to_string())
    );
}

#[test]
fn failed_observation_is_only_reported() {
    let h = PluginHandle::new("url", true).unwrap();
    assert_eq!(
        observation_failed(&h, &Error::Synthetic("no title".to_string())),
        "out_message error from plugin url: Generic plugin error no title"
    );
    assert_eq!(
        observation_failed(&h, &Error::Wrapped { source: "inner".to_string(), ctx: "outer".to_string() }),
        "out_message error from plugin url: Plugin error from inner"
    );
}
