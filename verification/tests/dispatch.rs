use rustygolem::broadcast::{broadcast, is_observer, observers};
use rustygolem::dispatch::{collect_round, outbound_of, read_slot, recipients, Slot, DEFAULT_CONCURRENCY};
use rustygolem::error::Error;
use rustygolem::message::{ChatMessage, Command, Origin, OutboundEnvelope};
use rustygolem::plugin::{Blacklist, PluginHandle};
use rustygolem::supervisor::{relay, supervise, Supervision, TaskEvent};

fn handle(name: &str, observes_blacklisted: bool) -> PluginHandle {
    PluginHandle::new(name, observes_blacklisted).unwrap()
}

fn inbound(source: &str, body: &str) -> ChatMessage {
    ChatMessage {
        command: Command::Text,
        source: Some(source.to_string()),
        target: Some("#chan".to_string()),
        body: body.to_string(),
    }
}

fn reply(body: &str) -> ChatMessage {
    ChatMessage::text("#chan", body.to_string())
}

fn blacklist(names: &[&str]) -> Blacklist {
    Blacklist::new(names.iter().map(|n| n.to_string()).collect())
}

#[test]
fn plugin_name_is_never_empty() {
    assert_eq!(PluginHandle::new("", false), None);
    let h = PluginHandle::new("echo", true).unwrap();
    assert_eq!(h.name, "echo");
    assert!(h.observes_blacklisted);
}

#[test]
fn blacklist_membership() {
    let list = blacklist(&["troll", "bot"]);
    assert!(list.contains(&"troll".to_string()));
    assert!(list.contains(&"bot".to_string()));
    assert!(!list.contains(&"trol".to_string()));
    assert!(list.suppresses(&Some("bot".to_string())));
    assert!(!list.suppresses(&Some("alice".to_string())));
    assert!(!list.suppresses(&None));
    assert!(!blacklist(&[]).contains(&"troll".to_string()));
}

#[test]
fn default_concurrency_is_five() {
    assert_eq!(DEFAULT_CONCURRENCY, 5);
}

#[test]
fn scenario_blacklisted_source_with_observer() {
    let plugins = vec![handle("echo", false), handle("blacklisted-observer", true)];
    let list = blacklist(&["troll"]);
    let msg = inbound("troll", "hello");

    // Echo does not see the message, the observer does.
    assert_eq!(recipients(&plugins, &list, &msg), vec![false, true]);

    // Only the observer replies.
    let slots = vec![Slot::Empty, Slot::Reply(Some(reply("ack")))];
    let round = collect_round(&plugins, &list, &msg, &slots).unwrap();
    let out = outbound_of(&round);
    assert_eq!(out.len(), 1);
    assert_eq!(out[0].origin, Origin::Plugin("blacklisted-observer".to_string()));
    assert_eq!(out[0].message.body, "ack");

    // Echo is told of it, the observer is not; one copy goes out.
    let plan = broadcast(&plugins, &out[0]);
    assert_eq!(plan.notify, vec![true, false]);
    assert_eq!(plan.wire, reply("ack"));
}

#[test]
fn no_self_feedback() {
    let plugins = vec![handle("a", false), handle("b", false), handle("c", true)];
    for author in &plugins {
        let origin = Origin::Plugin(author.name.clone());
        let notify = observers(&plugins, &origin);
        for (i, p) in plugins.iter().enumerate() {
            assert_eq!(notify[i], p.name != author.name);
        }
        assert!(!is_observer(author, &origin));
    }
}

#[test]
fn runtime_origin_reaches_every_plugin() {
    let plugins = vec![handle("a", false), handle("runtime", false)];
    assert_eq!(observers(&plugins, &Origin::Runtime), vec![true, true]);
}

#[test]
fn same_content_from_other_plugin_is_observed() {
    let plugins = vec![handle("a", false), handle("b", false)];
    let from_a = OutboundEnvelope { origin: Origin::Plugin("a".to_string()), message: reply("x") };
    let from_b = OutboundEnvelope { origin: Origin::Plugin("b".to_string()), message: reply("x") };
    assert_eq!(broadcast(&plugins, &from_a).notify, vec![false, true]);
    assert_eq!(broadcast(&plugins, &from_b).notify, vec![true, false]);
}

#[test]
fn blacklist_enforcement() {
    let plugins = vec![handle("a", false), handle("b", false)];
    let list = blacklist(&["troll"]);
    let msg = inbound("troll", "hi");
    assert_eq!(recipients(&plugins, &list, &msg), vec![false, false]);
    // whatever the slots hold, nothing is recorded and nothing fails
    let slots = vec![Slot::Reply(Some(reply("leak"))), Slot::Failure(Error::Synthetic("boom".to_string()))];
    let round = collect_round(&plugins, &list, &msg, &slots).unwrap();
    assert_eq!(round, vec![None, None]);
    assert!(outbound_of(&round).is_empty());
}

#[test]
fn blacklist_override() {
    let plugins = vec![handle("mod", true)];
    let list = blacklist(&["troll"]);
    let msg = inbound("troll", "hi");
    assert_eq!(recipients(&plugins, &list, &msg), vec![true]);
    let round = collect_round(&plugins, &list, &msg, &vec![Slot::Reply(Some(reply("seen")))]).unwrap();
    assert_eq!(
        round,
        vec![Some(OutboundEnvelope { origin: Origin::Plugin("mod".to_string()), message: reply("seen") })]
    );
}

#[test]
fn message_without_source_is_never_suppressed() {
    let plugins = vec![handle("a", false)];
    let list = blacklist(&["troll"]);
    let mut msg = inbound("troll", "hi");
    msg.source = None;
    assert_eq!(recipients(&plugins, &list, &msg), vec![true]);
}

#[test]
fn fan_out_completeness() {
    let names = ["ant", "bee", "cat", "dog", "eel", "fox", "gnu"];
    let plugins: Vec<PluginHandle> = names.iter().map(|n| handle(n, false)).collect();
    let list = blacklist(&["troll"]);
    let msg = inbound("alice", "hi");
    let slots: Vec<Slot> = names.iter().map(|n| Slot::Reply(Some(reply(n)))).collect();
    let out = outbound_of(&collect_round(&plugins, &list, &msg, &slots).unwrap());
    assert_eq!(out.len(), names.len());
    for (i, n) in names.iter().enumerate() {
        assert_eq!(out[i].origin, Origin::Plugin(n.to_string()));
        assert_eq!(out[i].message, reply(n));
    }
}

#[test]
fn silent_plugins_cause_no_traffic() {
    let plugins = vec![handle("a", false), handle("b", true)];
    let list = blacklist(&["troll"]);
    for source in ["alice", "troll", "bob"] {
        let msg = inbound(source, "hi");
        let slots = vec![Slot::Reply(None), Slot::Reply(None)];
        let round = collect_round(&plugins, &list, &msg, &slots).unwrap();
        assert_eq!(round, vec![None, None]);
        assert!(outbound_of(&round).is_empty());
    }
    assert_eq!(supervise(&plugins[0], TaskEvent::Returned), Supervision::Retire);
}

#[test]
fn gaps_are_dropped_in_order() {
    let a = OutboundEnvelope { origin: Origin::Plugin("a".to_string()), message: reply("1") };
    let c = OutboundEnvelope { origin: Origin::Plugin("c".to_string()), message: reply("3") };
    let replies = vec![Some(a.clone()), None, Some(c.clone()), None];
    assert_eq!(outbound_of(&replies), vec![a, c]);
    assert_eq!(outbound_of(&vec![]), vec![]);
}

#[test]
fn hook_failure_fails_the_round_with_plugin_name() {
    let plugins = vec![handle("a", false), handle("b", false), handle("c", false)];
    let list = blacklist(&[]);
    let msg = inbound("alice", "hi");
    let slots = vec![
        Slot::Reply(Some(reply("fine"))),
        Slot::Failure(Error::Synthetic("boom".to_string())),
        Slot::Failure(Error::Generic("later".to_string())),
    ];
    assert_eq!(
        collect_round(&plugins, &list, &msg, &slots),
        Err(Error::Wrapped {
            source: "Generic plugin error boom".to_string(),
            ctx: "in_message error from plugin b".to_string(),
        })
    );
}

#[test]
fn empty_or_missing_slot_is_a_plumbing_error() {
    let plugins = vec![handle("a", false), handle("b", false)];
    let list = blacklist(&[]);
    let msg = inbound("alice", "hi");
    let expected = Err(Error::Synthetic("cannot send plugin message !".to_string()));
    assert_eq!(collect_round(&plugins, &list, &msg, &vec![Slot::Reply(None), Slot::Empty]), expected);
    assert_eq!(collect_round(&plugins, &list, &msg, &vec![Slot::Reply(None)]), expected);
    assert_eq!(collect_round(&plugins, &list, &msg, &vec![]), expected);
    // more slots than plugins: the rest is not read
    assert_eq!(
        collect_round(&plugins, &list, &msg, &vec![Slot::Reply(None), Slot::Reply(None), Slot::Empty]),
        Ok(vec![None, None])
    );
}

#[test]
fn read_slot_cases() {
    let h = handle("echo", false);
    assert_eq!(read_slot(&h, false, &Slot::Failure(Error::Generic("x".to_string()))), Ok(None));
    assert_eq!(read_slot(&h, true, &Slot::Reply(None)), Ok(None));
    assert_eq!(
        read_slot(&h, true, &Slot::Reply(Some(reply("r")))),
        Ok(Some(OutboundEnvelope { origin: Origin::Plugin("echo".to_string()), message: reply("r") }))
    );
    assert_eq!(
        read_slot(&h, true, &Slot::Failure(Error::Generic("x".to_string()))),
        Err(Error::Wrapped {
            source: "Generic error".to_string(),
            ctx: "in_message error from plugin echo".to_string()
        })
    );
}

#[test]
fn supervisor_rule() {
    let h = handle("twitch", false);
    assert_eq!(
        supervise(&h, TaskEvent::Emitted(reply("live"))),
        Supervision::Publish(OutboundEnvelope {
            origin: Origin::Plugin("twitch".to_string()),
            message: reply("live")
        })
    );
    assert_eq!(supervise(&h, TaskEvent::Returned), Supervision::Retire);
    assert_eq!(
        supervise(&h, TaskEvent::Failed(Error::Synthetic("down".to_string()))),
        Supervision::Abort(Error::Wrapped {
            source: "Generic plugin error down".to_string(),
            ctx: "Plugin twitch.run() failed".to_string(),
        })
    );
    assert_eq!(relay(&h, reply("m")).origin, Origin::Plugin("twitch".to_string()));
}

#[test]
fn emitted_message_is_not_fed_back_to_its_author() {
    let plugins = vec![handle("echo", false), handle("twitch", false)];
    let envelope = relay(&plugins[1], reply("live"));
    assert_eq!(broadcast(&plugins, &envelope).notify, vec![true, false]);
}
