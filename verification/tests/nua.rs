//! Agents and dialog handles, driven against an engine that loops
//! messages back to the agents bound on it.

use sofia_sip::error::Error;
use sofia_sip::nua::builder::Builder as NuaBuilder;
use sofia_sip::nua::event::Event;
use sofia_sip::nua::handle::Handle;
use sofia_sip::nua::nua::nua_callback_glue;
use sofia_sip::nua::nua::Delivery;
use sofia_sip::nua::nua::Nua;
use sofia_sip::nua::nua::NuaState;
use sofia_sip::nua::nua::Trap;
use sofia_sip::su::is_default_root_initialized;
use sofia_sip::su::Root;
use sofia_sip::su::Su;
use sofia_sip::sys::Call;
use sofia_sip::sys::Progress;
use sofia_sip::sys::RawAddr;
use sofia_sip::sys::RawContentType;
use sofia_sip::sys::RawEvent;
use sofia_sip::sys::RawGeneric;
use sofia_sip::sys::RawPayload;
use sofia_sip::sys::RawSip;
use sofia_sip::sys::Reply;
use sofia_sip::sys::Symbol;
use sofia_sip::sys::WireTag;
use sofia_sip::tag::builder::Builder;
use sofia_sip::tag::tag::Tag;

const I_INVITE: i32 = 1;
const I_MESSAGE: i32 = 16;
const R_SHUTDOWN: i32 = 25;
const R_MESSAGE: i32 = 41;

/// One engine instance of the scripted engine.
struct Instance {
    address: usize,
    magic: usize,
    url: Option<Vec<u8>>,
    alive: bool,
}

/// An engine that binds addresses, refuses to bind one twice, loops
/// messages back to whoever is bound to their destination, and confirms a
/// shutdown on the step after it was asked for.
struct Engine {
    calls: Vec<Call>,
    next_address: usize,
    instances: Vec<Instance>,
    handles: Vec<(usize, usize, usize)>,
    queue: Vec<(usize, RawEvent)>,
    confirm_shutdown: bool,
}

fn value_of(tags: &[WireTag], symbol: Symbol) -> Option<Vec<u8>> {
    tags.iter().rev().find(|t| t.t_tag == symbol).and_then(|t| t.t_value.clone())
}

fn url_record(url: &[u8]) -> RawAddr {
    let mut buf = url.to_vec();
    buf.push(0);
    RawAddr { a_display: None, a_url: buf, a_url_len: url.len() }
}

impl Engine {
    fn new() -> Engine {
        Engine {
            calls: Vec::new(),
            next_address: 0x1000,
            instances: Vec::new(),
            handles: Vec::new(),
            queue: Vec::new(),
            confirm_shutdown: true,
        }
    }

    fn fresh(&mut self) -> usize {
        self.next_address += 0x10;
        self.next_address
    }

    fn event(&self, code: i32, status: i32, phrase: &str, nua: usize, nh: usize) -> RawEvent {
        RawEvent {
            event: code,
            status,
            phrase: Some(phrase.as_bytes().to_vec()),
            nua,
            nh,
            sip: None,
            tags: Vec::new(),
        }
    }

    /// Makes the call; returns the reply and the events that the engine
    /// reports while the call runs, each with the context that it is
    /// reported to.
    fn perform(&mut self, call: Call) -> (Reply, Vec<(usize, RawEvent)>) {
        self.calls.push(call.clone());
        match call {
            Call::RootCreate => (Reply::Root(self.fresh()), Vec::new()),
            Call::NuaCreate { magic, tags, .. } => {
                let url = value_of(&tags, Symbol::NuUrl);
                let taken = url.is_some()
                    && self.instances.iter().any(|i| i.alive && i.url == url);
                if taken {
                    return (Reply::Nua(0), Vec::new());
                }
                let address = self.fresh();
                self.instances.push(Instance { address, magic, url, alive: true });
                (Reply::Nua(address), Vec::new())
            }
            Call::NuaShutdown { nua } => {
                if self.confirm_shutdown {
                    let magic = self.magic_of(nua);
                    let raw = self.event(R_SHUTDOWN, 200, "Shutdown successful", nua, 0);
                    self.queue.push((magic, raw));
                }
                (Reply::Done, Vec::new())
            }
            Call::NuaDestroy { nua } => {
                for instance in self.instances.iter_mut() {
                    if instance.address == nua {
                        instance.alive = false;
                    }
                }
                (Reply::Done, Vec::new())
            }
            Call::HandleCreate { nua, magic, .. } => {
                let address = self.fresh();
                self.handles.push((address, nua, magic));
                (Reply::Handle(address), Vec::new())
            }
            Call::Message { handle, tags } => {
                let (_, sender, _) = *self.handles.iter().find(|h| h.0 == handle).unwrap();
                let to = value_of(&tags, Symbol::SipToStr).or(value_of(&tags, Symbol::NuUrl));
                let from = self.instances.iter().find(|i| i.address == sender).unwrap();
                let from_url = from.url.clone().unwrap_or_default();
                let target = self
                    .instances
                    .iter()
                    .find(|i| i.alive && i.url.is_some() && i.url == to)
                    .map(|i| (i.address, i.magic));
                if let Some((address, magic)) = target {
                    let payload = value_of(&tags, Symbol::SipPayloadStr);
                    let mut raw = self.event(I_MESSAGE, 100, "Trying", address, 0);
                    raw.sip = Some(RawSip {
                        sip_from: Some(url_record(&from_url)),
                        sip_to: to.as_deref().map(url_record),
                        sip_subject: value_of(&tags, Symbol::SipSubjectStr)
                            .map(|s| RawGeneric { g_string: Some(s) }),
                        sip_content_type: value_of(&tags, Symbol::SipContentTypeStr)
                            .map(|s| RawContentType { c_type: Some(s) }),
                        sip_payload: payload.map(|p| RawPayload {
                            pl_len: p.len(),
                            pl_data: Some(p),
                        }),
                    });
                    self.queue.push((magic, raw));
                    let sender_magic = self.magic_of(sender);
                    let reply = self.event(R_MESSAGE, 200, "OK", sender, handle);
                    self.queue.push((sender_magic, reply));
                }
                (Reply::Done, Vec::new())
            }
            Call::Invite { handle, tags } => {
                let (_, sender, _) = *self.handles.iter().find(|h| h.0 == handle).unwrap();
                let to = value_of(&tags, Symbol::NuUrl);
                let from = self.instances.iter().find(|i| i.address == sender).unwrap();
                let from_url = from.url.clone().unwrap_or_default();
                let target = self
                    .instances
                    .iter()
                    .find(|i| i.alive && i.url.is_some() && i.url == to)
                    .map(|i| (i.address, i.magic));
                if let Some((address, magic)) = target {
                    let mut raw = self.event(I_INVITE, 100, "Trying", address, 0);
                    raw.sip = Some(RawSip {
                        sip_from: Some(RawAddr {
                            a_display: value_of(&tags, Symbol::NuMDisplay),
                            ..url_record(&from_url)
                        }),
                        sip_to: to.as_deref().map(url_record),
                        sip_subject: None,
                        sip_content_type: None,
                        sip_payload: value_of(&tags, Symbol::SoaUserSdpStr).map(|p| RawPayload {
                            pl_len: p.len(),
                            pl_data: Some(p),
                        }),
                    });
                    self.queue.push((magic, raw));
                }
                (Reply::Done, Vec::new())
            }
            Call::RootStep { .. } | Call::RootSleep { .. } | Call::RootRun { .. } => {
                if self.queue.is_empty() {
                    (Reply::Remaining(-1), Vec::new())
                } else {
                    (Reply::Remaining(0), vec![self.queue.remove(0)])
                }
            }
            _ => (Reply::Done, Vec::new()),
        }
    }

    fn magic_of(&self, nua: usize) -> usize {
        self.instances.iter().find(|i| i.address == nua).unwrap().magic
    }

    fn count(&self, wanted: impl Fn(&Call) -> bool) -> usize {
        self.calls.iter().filter(|call| wanted(call)).count()
    }
}

/// The agents and handles of a test, each known to the engine by its
/// position plus one.
struct World {
    engine: Engine,
    agents: Vec<Nua>,
    handles: Vec<Handle>,
    seen: Vec<(usize, Delivery)>,
}

impl World {
    fn new() -> World {
        World { engine: Engine::new(), agents: Vec::new(), handles: Vec::new(), seen: Vec::new() }
    }

    fn call(&mut self, call: Call) -> Reply {
        let (reply, events) = self.engine.perform(call);
        for (magic, raw) in events {
            let handle = self.handles.iter().find(|h| raw.nh != 0 && h.c_ptr() == raw.nh);
            let agent = self.agents.get_mut(magic - 1);
            let delivery = nua_callback_glue(&raw, agent, handle).unwrap();
            self.seen.push((magic, delivery));
        }
        reply
    }

    fn drive<T>(&mut self, mut op: impl FnMut(&mut World, Reply) -> Progress<T>) -> T {
        let mut reply = Reply::Start;
        loop {
            match op(self, reply) {
                Progress::Perform(call) => reply = self.call(call),
                Progress::Finish(call, value) => {
                    self.call(call);
                    return value;
                }
                Progress::Done(value) => return value,
            }
        }
    }

    fn root(&mut self, su: &mut Su) -> Root {
        self.drive(|_, reply| Root::new(su, reply)).unwrap()
    }

    /// Creates an agent on `root`; its context is its position plus one.
    fn agent(&mut self, root: &Root, tags: &[Tag]) -> Result<usize, Error> {
        self.agents.push(Nua::_new());
        let magic = self.agents.len();
        let made = self.drive(|world, reply| {
            world.agents[magic - 1].create_with_root(root, magic, tags, reply)
        });
        made.map(|_| magic)
    }

    fn agent_on_default_root(&mut self, su: &mut Su, tags: &[Tag]) -> Result<usize, Error> {
        self.agents.push(Nua::_new());
        let magic = self.agents.len();
        let made =
            self.drive(|world, reply| world.agents[magic - 1].create(su, magic, tags, reply));
        made.map(|_| magic)
    }

    fn handle(&mut self, agent: usize, tags: &[Tag]) -> Result<usize, Error> {
        self.handles.push(Handle::_new());
        let magic = self.handles.len();
        let made = self.drive(|world, reply| {
            let (agents, handles) = (&world.agents, &mut world.handles);
            handles[magic - 1].create(&agents[agent - 1], 0x100 + magic, tags, reply)
        });
        made.map(|_| magic)
    }

    fn events_of(&self, agent: usize) -> Vec<Event> {
        self.seen.iter().filter(|(magic, _)| *magic == agent).map(|(_, d)| d.event).collect()
    }
}

fn create_nua_with_default_root_scenario() {
    let mut world = World::new();
    let mut su = Su::new();
    let tags = Builder::default().collect();

    let agent = world.agent_on_default_root(&mut su, &tags).unwrap();
    assert!(is_default_root_initialized(&su));
    assert_eq!(world.agents[agent - 1].state(), NuaState::Active);
    assert_ne!(world.agents[agent - 1].c_ptr(), 0);
    assert_eq!(
        world.engine.calls,
        vec![
            Call::SuInit,
            Call::RootCreate,
            Call::RootThreading { root: 0x1010, enable: false },
            Call::NuaCreate {
                root: 0x1010,
                magic: agent,
                tags: vec![WireTag { t_tag: Symbol::Null, t_type: None, t_value: None }],
            },
        ]
    );
    assert_eq!(world.agents[agent - 1].root(), 0x1010);
}

fn create_nua_with_custom_root_scenario() {
    let mut world = World::new();
    let mut su = Su::new();
    let tags = Builder::default().collect();
    let root = world.root(&mut su);

    let agent = world.agent(&root, &tags).unwrap();
    assert!(!is_default_root_initialized(&su));
    assert_eq!(world.agents[agent - 1].root(), root.address());
}

fn create_nua_with_custom_url_scenario() {
    let mut world = World::new();
    let mut su = Su::new();
    let url = Tag::NuUrl("sip:*:5080".to_string()).unwrap();

    let _root = world.root(&mut su);

    let tags = Builder::default().tag(url).collect();

    world.agent_on_default_root(&mut su, &tags).unwrap();
    let asked = world.engine.calls.last().unwrap();
    match asked {
        Call::NuaCreate { tags, .. } => {
            assert_eq!(tags.len(), 2);
            assert_eq!(tags[0].t_tag, Symbol::NuUrl);
            assert_eq!(tags[0].t_value, Some(b"sip:*:5080".to_vec()));
        }
        other => panic!("the last call must create the agent, not {:?}", other),
    }
}

fn create_two_nua_with_same_port_scenario() {
    let mut world = World::new();
    let mut su = Su::new();
    let url = Tag::NuUrl("sip:*:5080".to_string()).unwrap();

    let root = world.root(&mut su);

    let b = Builder::default();
    let b = b.tag(url);
    let tags = b.collect();

    let _nua_a = world.agent(&root, &tags).unwrap();

    let url = Tag::NuUrl("sip:*:5080".to_string()).unwrap();

    let root = world.root(&mut su);

    let b = Builder::default();
    let b = b.tag(url);
    let tags = b.collect();

    assert!(world.agent(&root, &tags).is_err());
    assert_eq!(world.agent(&root, &tags), Err(Error::CreateNuaError));
    assert_eq!(world.agents.last().unwrap().state(), NuaState::Created);
    assert_eq!(world.agents.last().unwrap().c_ptr(), 0);
}

fn nua_send_message_to_itself_scenario() {
    let my_message = "Hi\n";
    let mut world = World::new();
    let mut su = Su::new();
    let root = world.root(&mut su);
    let url = "sip:127.0.0.1:9997";

    let nua = {
        let url = Tag::NuUrl(url.to_string()).unwrap();
        let tags = Builder::default().tag(url).collect();
        world.agent(&root, &tags).unwrap()
    };

    let handle = {
        let tags = Builder::default()
            .tag(Tag::SipTo(url.to_string()).unwrap())
            .tag(Tag::NuUrl(url.to_string()).unwrap())
            .collect();
        world.handle(nua, &tags).unwrap()
    };

    let tags = Builder::default()
        .tag(Tag::SipSubject("NUA".to_string()).unwrap())
        .tag(Tag::SipTo(url.to_string()).unwrap())
        .tag(Tag::NuUrl(url.to_string()).unwrap())
        .tag(Tag::SipContentType("text/plain".to_string()).unwrap())
        .tag(Tag::SipPayload(my_message.to_string()).unwrap())
        .collect();

    world.drive(|world, _| world.handles[handle - 1].message(&tags));
    while world.drive(|_, reply| root.sleep(0, reply)) >= 0 {}

    let mut recv_message = String::new();
    for (_, delivery) in &world.seen {
        match delivery.event {
            Event::IncomingMessage => {
                println!("Received MESSAGE: {} {}", delivery.status, &delivery.phrase);
                println!("From: {}", delivery.sip.from().to_string());
                println!("To: {}", delivery.sip.to().to_string());
                println!("Subject: {}", delivery.sip.subject().to_string());
                println!("ContentType: {}", delivery.sip.content_type().to_string());
                let payload = delivery.sip.payload().as_utf8_lossy();
                println!("Payload: {:?}", &payload);
                recv_message.push_str(&payload);
            }
            _ => {}
        }
    }
    assert_eq!(&recv_message, my_message);

    /* exactly one message came in, and exactly one reply after it */
    assert_eq!(world.events_of(nua), vec![Event::IncomingMessage, Event::ReplyMessage]);
    let incoming = &world.seen[0].1;
    assert!(!incoming.has_handle);
    assert!(incoming.sip.is_present());
    assert_eq!(incoming.sip.payload().data(), &my_message.as_bytes().to_vec());
    assert_eq!(incoming.sip.from().url(), url);
    assert_eq!(incoming.sip.to().url(), url);
    assert_eq!(incoming.sip.subject().to_string(), "NUA");
    assert_eq!(incoming.sip.content_type().to_string(), "text/plain");
    let reply = &world.seen[1].1;
    assert!(reply.has_handle);
    assert_eq!(reply.status, 200);
    assert_eq!(reply.phrase, "OK");
    assert!(!reply.sip.is_present());
}

fn nua_a_send_message_to_nua_b_scenario() {
    let mut world = World::new();
    let mut su = Su::new();
    let nua_a_url = "sip:127.0.0.1:5080";
    let nua_a = {
        let url = Tag::NuUrl(nua_a_url.to_string()).unwrap();
        let tags = Builder::default().tag(url).collect();
        world.agent_on_default_root(&mut su, &tags).unwrap()
    };
    let nua_b_url = "sip:127.0.0.1:5081";
    let nua_b = {
        let url = Tag::NuUrl(nua_b_url.to_string()).unwrap();
        let tags = Builder::default().tag(url).collect();
        world.agent_on_default_root(&mut su, &tags).unwrap()
    };
    let my_message = "Hi Sofia SIP\n";

    let handle = {
        let tags = Builder::default()
            .tag(Tag::SipTo(nua_b_url.to_string()).unwrap())
            .tag(Tag::NuUrl(nua_b_url.to_string()).unwrap())
            .collect();
        world.handle(nua_a, &tags).unwrap()
    };

    let tags = Builder::default()
        .tag(Tag::SipSubject("NUA".to_string()).unwrap())
        .tag(Tag::SipTo(nua_b_url.to_string()).unwrap())
        .tag(Tag::NuUrl(nua_b_url.to_string()).unwrap())
        .tag(Tag::SipContentType("text/plain".to_string()).unwrap())
        .tag(Tag::SipPayload(my_message.to_string()).unwrap())
        .collect();

    world.drive(|world, _| world.handles[handle - 1].message(&tags));
    println!("--> Root run start");
    /* the loop is left when the reply to the message reaches agent A */
    loop {
        world.drive(|world, _| world.agents[nua_a - 1].run());
        if world.events_of(nua_a).contains(&Event::ReplyMessage) {
            world.drive(|world, _| world.agents[nua_a - 1].break_());
            break;
        }
    }
    println!("--> Root run end");

    let mut recv_message = String::new();
    for (magic, delivery) in &world.seen {
        if *magic == nua_b {
            println!("[NUA _B]Event: {:?}", &delivery.event);
            if let Event::IncomingMessage = delivery.event {
                println!("[NUA _B]Received MESSAGE: {} {}", delivery.status, &delivery.phrase);
                println!("[NUA _B]From: {}", delivery.sip.from().to_string());
                println!("[NUA _B]To: {}", delivery.sip.to().to_string());
                println!("[NUA _B]Subject: {}", delivery.sip.subject().to_string());
                println!("[NUA _B]ContentType: {}", delivery.sip.content_type().to_string());
                let payload = delivery.sip.payload().as_utf8_lossy();
                println!("[NUA _B]Payload: {:?}", &payload);
                recv_message.push_str(&payload);
            }
        } else {
            println!("[NUA A_]Event: {:?}", &delivery.event);
        }
    }
    assert_eq!(&recv_message, my_message);
    assert_eq!(world.events_of(nua_b), vec![Event::IncomingMessage]);
    assert_eq!(world.events_of(nua_a), vec![Event::ReplyMessage]);
    /* both agents share the default reactor */
    assert_eq!(world.engine.count(|c| *c == Call::RootCreate), 1);
    assert_eq!(world.agents[nua_a - 1].root(), world.agents[nua_b - 1].root());
}

#[test]
fn nua_create_nua_with_default_root() {
    create_nua_with_default_root_scenario();
}

#[test]
fn nua_create_nua_with_custom_root() {
    create_nua_with_custom_root_scenario();
}

#[test]
fn nua_create_nua_with_custom_url() {
    create_nua_with_custom_url_scenario();
}

#[test]
fn nua_create_two_nua_with_same_port() {
    create_two_nua_with_same_port_scenario();
}

#[test]
fn nua_tests_create_nua_with_default_root() {
    create_nua_with_default_root_scenario();
}

#[test]
fn nua_tests_create_nua_with_custom_root() {
    create_nua_with_custom_root_scenario();
}

#[test]
fn nua_tests_create_nua_with_custom_url() {
    create_nua_with_custom_url_scenario();
}

#[test]
fn nua_tests_create_two_nua_with_same_port() {
    create_two_nua_with_same_port_scenario();
}

#[test]
fn nua_send_message_to_itself() {
    nua_send_message_to_itself_scenario();
}

#[test]
fn test_nua_a_send_message_to_nua_b() {
    nua_a_send_message_to_nua_b_scenario();
}

#[test]
fn test_case_nua_send_message_to_itself() {
    nua_send_message_to_itself_scenario();
}

#[test]
fn test_case_nua_a_send_message_to_nua_b() {
    nua_a_send_message_to_nua_b_scenario();
}

#[test]
fn test_case_basic_call_incomplete() {
    let mut world = World::new();
    let mut su = Su::new();
    let nua_a_url = "sip:127.0.0.1:5080";
    let nua_a = {
        let url = Tag::NuUrl(nua_a_url.to_string()).unwrap();
        let tags = Builder::default().tag(url).collect();
        world.agent_on_default_root(&mut su, &tags).unwrap()
    };
    let nua_b_url = "sip:127.0.0.1:5081";
    let nua_b = {
        let url = Tag::NuUrl(nua_b_url.to_string()).unwrap();
        let tags = Builder::default().tag(url).collect();
        world.agent_on_default_root(&mut su, &tags).unwrap()
    };

    let handle = {
        let tags = Builder::default()
            .tag(Tag::SipTo(nua_b_url.to_string()).unwrap())
            .tag(Tag::NuUrl(nua_b_url.to_string()).unwrap())
            .collect();
        world.handle(nua_a, &tags).unwrap()
    };

    let tags = Builder::default()
        .tag(Tag::NuUrl(nua_b_url.to_string()).unwrap())
        .tag(Tag::SoaUserSdp("m=audio 5008 RTP/AVP 8".to_string()).unwrap())
        .tag(Tag::NuMUsername("a+a".to_string()).unwrap())
        .tag(Tag::NuMDisplay("Alice".to_string()).unwrap())
        .collect();

    world.engine.calls.clear();
    world.drive(|world, _| world.handles[handle - 1].invite(&tags));
    let text = |symbol: Symbol, value: &str| WireTag {
        t_tag: symbol,
        t_type: None,
        t_value: Some(value.as_bytes().to_vec()),
    };
    assert_eq!(
        world.engine.calls,
        vec![Call::Invite {
            handle: world.handles[handle - 1].c_ptr(),
            tags: vec![
                text(Symbol::NuUrl, nua_b_url),
                text(Symbol::SoaUserSdpStr, "m=audio 5008 RTP/AVP 8"),
                text(Symbol::NuMUsername, "a+a"),
                text(Symbol::NuMDisplay, "Alice"),
                WireTag { t_tag: Symbol::Null, t_type: None, t_value: None },
            ],
        }]
    );

    let root = world.agents[nua_a - 1].root();
    assert_eq!(world.call(Call::RootStep { root, timeout: 0 }), Reply::Remaining(0));

    for (magic, delivery) in &world.seen {
        let who = if *magic == nua_b { "[NUA _B]" } else { "[NUA A_]" };
        println!(
            "{}Event: {:?} // status: {:?} // phrase: {:?}",
            who, &delivery.event, &delivery.status, &delivery.phrase
        );
    }
    assert_eq!(world.events_of(nua_b), vec![Event::IncomingInvite]);
    assert_eq!(world.seen[0].1.sip.from().to_string(), "Alice sip:127.0.0.1:5080");
    assert_eq!(world.seen[0].1.sip.payload().as_utf8_lossy(), "m=audio 5008 RTP/AVP 8");
    println!("--> Test end");
}

#[test]
fn create_refuses_null_arguments() {
    let mut world = World::new();
    let mut su = Su::new();
    let root = world.root(&mut su);
    let mut nua = Nua::_new();
    world.engine.calls.clear();

    /* no context to register */
    assert_eq!(
        nua.create_with_root(&root, 0, &[], Reply::Start),
        Progress::Done(Err(Error::CreateNuaError))
    );
    assert_eq!(Nua::_create(root.address(), 0, None), Err(Error::CreateNuaError));
    assert_eq!(Nua::_create(0, 7, None), Err(Error::CreateNuaError));
    assert_eq!(
        Nua::_create(0x20, 7, None),
        Ok(Call::NuaCreate {
            root: 0x20,
            magic: 7,
            tags: vec![WireTag { t_tag: Symbol::Null, t_type: None, t_value: None }],
        })
    );

    /* a reactor that was released */
    let mut gone = world.root(&mut su);
    world.drive(|_, reply| gone.destroy(reply));
    assert_eq!(
        nua.create_with_root(&gone, 7, &[], Reply::Start),
        Progress::Done(Err(Error::CreateNuaError))
    );
    assert_eq!(nua.state(), NuaState::Created);

    /* an agent is created once */
    assert_eq!(nua.create_with_root(&root, 7, &[], Reply::Nua(0x500)), Progress::Done(Ok(())));
    assert_eq!(nua.state(), NuaState::Active);
    assert_eq!(nua.c_ptr(), 0x500);
    assert_eq!(
        nua.create_with_root(&root, 7, &[], Reply::Start),
        Progress::Done(Err(Error::CreateNuaError))
    );
    assert_eq!(nua.c_ptr(), 0x500);
}

#[test]
fn create_on_default_root_fails_with_the_reactor() {
    let mut su = Su::new();
    let mut nua = Nua::_new();
    assert_eq!(nua.create(&mut su, 1, &[], Reply::Start), Progress::Perform(Call::SuInit));
    assert_eq!(nua.create(&mut su, 1, &[], Reply::Done), Progress::Perform(Call::RootCreate));
    assert_eq!(
        nua.create(&mut su, 1, &[], Reply::Root(0)),
        Progress::Done(Err(Error::InitError))
    );
    assert_eq!(nua.state(), NuaState::Created);
}

#[test]
fn destroy_shuts_down_and_waits_for_the_confirmation() {
    let mut world = World::new();
    let mut su = Su::new();
    let root = world.root(&mut su);
    let agent = world.agent(&root, &[]).unwrap();
    let at = world.agents[agent - 1].c_ptr();
    world.engine.calls.clear();

    /* shutdown() is never called by the test */
    world.drive(|world, reply| world.agents[agent - 1].destroy(reply));

    assert_eq!(
        world.engine.calls,
        vec![
            Call::NuaShutdown { nua: at },
            Call::RootStep { root: root.address(), timeout: 1 },
            Call::NuaDestroy { nua: at },
        ]
    );
    let nua = &world.agents[agent - 1];
    assert!(nua.is_shutdown_completed());
    assert_eq!(nua.c_ptr(), 0);
    assert_eq!(nua.state(), NuaState::Destroyed);
    assert_eq!(world.events_of(agent), vec![Event::ReplyShutdown]);

    /* destroying twice asks for nothing */
    world.engine.calls.clear();
    world.drive(|world, reply| world.agents[agent - 1].destroy(reply));
    assert!(world.engine.calls.is_empty());
}

#[test]
fn destroy_gives_up_when_the_reactor_is_drained() {
    let mut world = World::new();
    world.engine.confirm_shutdown = false;
    let mut su = Su::new();
    let root = world.root(&mut su);
    let agent = world.agent(&root, &[]).unwrap();
    let at = world.agents[agent - 1].c_ptr();
    world.engine.calls.clear();

    world.drive(|world, reply| world.agents[agent - 1].destroy(reply));

    assert_eq!(
        world.engine.calls,
        vec![
            Call::NuaShutdown { nua: at },
            Call::RootStep { root: root.address(), timeout: 1 },
            Call::NuaDestroy { nua: at },
        ]
    );
    let nua = &world.agents[agent - 1];
    assert!(!nua.is_shutdown_completed());
    assert_eq!(nua.c_ptr(), 0);
    assert_eq!(nua.state(), NuaState::Destroyed);
}

#[test]
fn shutdown_is_asked_once() {
    let mut world = World::new();
    let mut su = Su::new();
    let root = world.root(&mut su);
    let agent = world.agent(&root, &[]).unwrap();
    let at = world.agents[agent - 1].c_ptr();
    world.engine.calls.clear();

    world.drive(|world, _| world.agents[agent - 1].shutdown());
    assert_eq!(world.agents[agent - 1].state(), NuaState::ShuttingDown);
    world.drive(|world, _| world.agents[agent - 1].shutdown());
    world.drive(|world, reply| world.agents[agent - 1].shutdown_and_wait(reply));
    assert!(world.agents[agent - 1].is_shutdown_completed());
    world.drive(|world, _| world.agents[agent - 1].shutdown());
    world.drive(|world, reply| world.agents[agent - 1].shutdown_and_wait(reply));
    world.drive(|world, reply| world.agents[agent - 1].destroy(reply));

    assert_eq!(world.engine.count(|c| *c == Call::NuaShutdown { nua: at }), 1);
    assert_eq!(world.engine.count(|c| *c == Call::NuaDestroy { nua: at }), 1);
}

#[test]
fn shutdown_reply_below_the_final_status_is_not_the_end() {
    let mut nua = Nua::_new();
    nua._on_sys_nua_event(Event::ReplyShutdown, 101);
    assert!(!nua.is_shutdown_completed());
    nua._on_sys_nua_event(Event::ReplyShutdown, 199);
    assert!(!nua.is_shutdown_completed());
    nua._on_sys_nua_event(Event::ReplyMessage, 200);
    assert!(!nua.is_shutdown_completed());
    nua._on_sys_nua_event(Event::ReplyShutdown, 200);
    assert!(nua.is_shutdown_completed());
    nua._on_sys_nua_event(Event::ReplyShutdown, 100);
    assert!(nua.is_shutdown_completed());
}

#[test]
fn agent_forwards_run_and_break_to_its_reactor() {
    let mut world = World::new();
    let mut su = Su::new();
    let root = world.root(&mut su);
    let agent = world.agent(&root, &[]).unwrap();
    let nua = &world.agents[agent - 1];
    let at = root.address();
    assert_eq!(nua.run(), Progress::Finish(Call::RootRun { root: at }, ()));
    assert_eq!(nua.break_(), Progress::Finish(Call::RootBreak { root: at }, ()));
    assert_eq!(nua.quit(), Progress::Finish(Call::RootBreak { root: at }, ()));
    assert_eq!(Nua::_shutdown(9), Progress::Finish(Call::NuaShutdown { nua: 9 }, ()));
    assert_eq!(Nua::_destroy(9), Progress::Finish(Call::NuaDestroy { nua: 9 }, ()));
    assert_eq!(Nua::_destroy(0), Progress::Done(()));
}

#[test]
fn handle_is_created_under_a_live_agent() {
    let mut world = World::new();
    let mut su = Su::new();
    let root = world.root(&mut su);
    let agent = world.agent(&root, &[]).unwrap();
    let at = world.agents[agent - 1].c_ptr();

    let unborn = Nua::_new();
    let mut handle = Handle::_new();
    assert_eq!(
        handle.create(&unborn, 5, &[], Reply::Start),
        Progress::Done(Err(Error::CreateNuaHandleError))
    );
    assert_eq!(
        handle.create(&world.agents[agent - 1], 0, &[], Reply::Start),
        Progress::Done(Err(Error::CreateNuaHandleError))
    );
    let tags = Builder::default().siptag_to_str("sip:b@c").unwrap().collect();
    assert_eq!(
        handle.create(&world.agents[agent - 1], 5, &tags, Reply::Start),
        Progress::Perform(Call::HandleCreate {
            nua: at,
            magic: 5,
            tags: vec![
                WireTag {
                    t_tag: Symbol::SipToStr,
                    t_type: None,
                    t_value: Some(b"sip:b@c".to_vec()),
                },
                WireTag { t_tag: Symbol::Null, t_type: None, t_value: None },
            ],
        })
    );
    assert_eq!(
        handle.create(&world.agents[agent - 1], 5, &tags, Reply::Handle(0)),
        Progress::Done(Err(Error::CreateNuaHandleError))
    );
    assert_eq!(handle.c_ptr(), 0);
    assert_eq!(
        handle.create(&world.agents[agent - 1], 5, &tags, Reply::Handle(0x900)),
        Progress::Done(Ok(()))
    );
    assert_eq!(handle.c_ptr(), 0x900);
    assert_eq!(handle.nua(), at);
    /* a handle is created once */
    assert_eq!(
        handle.create(&world.agents[agent - 1], 5, &tags, Reply::Start),
        Progress::Done(Err(Error::CreateNuaHandleError))
    );

    assert_eq!(Handle::_create(0, 5, None), Err(Error::CreateNuaHandleError));
    assert_eq!(Handle::_create(at, 0, None), Err(Error::CreateNuaHandleError));
}

#[test]
fn handle_sends_and_is_released_once() {
    let mut world = World::new();
    let mut su = Su::new();
    let root = world.root(&mut su);
    let agent = world.agent(&root, &[]).unwrap();
    let index = world.handle(agent, &[]).unwrap();
    let handle = &mut world.handles[index - 1];
    let at = handle.c_ptr();
    let end = WireTag { t_tag: Symbol::Null, t_type: None, t_value: None };
    let subject = WireTag {
        t_tag: Symbol::SipSubjectStr,
        t_type: None,
        t_value: Some(b"NUA".to_vec()),
    };
    let tags = Builder::default().siptag_subject_str("NUA").unwrap().collect();

    assert_eq!(
        handle.message(&tags),
        Progress::Finish(
            Call::Message { handle: at, tags: vec![subject.clone(), end.clone()] },
            ()
        )
    );
    assert_eq!(
        handle.invite(&tags),
        Progress::Finish(Call::Invite { handle: at, tags: vec![subject, end.clone()] }, ())
    );
    assert_eq!(
        Handle::_message(at, None),
        Call::Message { handle: at, tags: vec![end.clone()] }
    );
    assert_eq!(Handle::_invite(at, None), Call::Invite { handle: at, tags: vec![end] });

    assert_eq!(handle.destroy(), Progress::Finish(Call::HandleDestroy { handle: at }, ()));
    assert_eq!(handle.c_ptr(), 0);
    assert_eq!(handle.destroy(), Progress::Done(()));
}

fn raw(event: i32, nua: usize, nh: usize) -> RawEvent {
    RawEvent { event, status: 200, phrase: None, nua, nh, sip: None, tags: Vec::new() }
}

#[test]
fn callback_traps_what_it_cannot_serve() {
    let mut world = World::new();
    let mut su = Su::new();
    let root = world.root(&mut su);
    let agent = world.agent(&root, &[]).unwrap();
    let index = world.handle(agent, &[]).unwrap();
    let handle = &world.handles[index - 1];
    let nua = &mut world.agents[agent - 1];
    let at = nua.c_ptr();
    let nh = handle.c_ptr();

    let trap = |res: Result<Delivery, Trap>| res.err();
    assert_eq!(trap(nua_callback_glue(&raw(55, at, 0), Some(nua), None)), Some(Trap::UnknownEvent));
    assert_eq!(trap(nua_callback_glue(&raw(-1, at, 0), Some(nua), None)), Some(Trap::UnknownEvent));
    assert_eq!(trap(nua_callback_glue(&raw(R_MESSAGE, at, 0), None, None)), Some(Trap::NullAgent));
    assert_eq!(
        trap(nua_callback_glue(&raw(R_MESSAGE, at + 1, 0), Some(nua), None)),
        Some(Trap::AgentMismatch)
    );
    assert_eq!(
        trap(nua_callback_glue(&raw(R_MESSAGE, at, nh + 1), Some(nua), Some(handle))),
        Some(Trap::HandleMismatch)
    );
    /* the first failed check decides */
    assert_eq!(
        trap(nua_callback_glue(&raw(99, at + 1, nh + 1), None, Some(handle))),
        Some(Trap::UnknownEvent)
    );
    /* a trapped shutdown reply changes nothing */
    assert_eq!(
        trap(nua_callback_glue(&raw(R_SHUTDOWN, at + 1, 0), Some(nua), None)),
        Some(Trap::AgentMismatch)
    );
    assert!(!nua.is_shutdown_completed());

    let served = nua_callback_glue(&raw(R_MESSAGE, at, nh), Some(nua), Some(handle)).unwrap();
    assert_eq!(served.event, Event::ReplyMessage);
    assert!(served.has_handle);
    assert_eq!(served.phrase, "");
    assert!(served.tags.is_empty());
    assert!(!nua.is_shutdown_completed());

    let served = nua_callback_glue(&raw(R_SHUTDOWN, at, 0), Some(nua), None).unwrap();
    assert_eq!(served.event, Event::ReplyShutdown);
    assert!(!served.has_handle);
    assert!(nua.is_shutdown_completed());
}

#[test]
fn callback_decodes_status_phrase_and_tags() {
    let mut nua = Nua::_new();
    let mut event = raw(I_MESSAGE, 0, 0);
    event.status = -1;
    event.phrase = Some(b"Trying\0and more".to_vec());
    event.tags = vec![
        WireTag { t_tag: Symbol::NuUrl, t_type: None, t_value: Some(b"sip:a@b".to_vec()) },
        WireTag { t_tag: Symbol::TagNull, t_type: None, t_value: None },
        WireTag { t_tag: Symbol::SipSubjectStr, t_type: None, t_value: None },
    ];
    let served = nua_callback_glue(&event, Some(&mut nua), None).unwrap();
    assert_eq!(served.status, u32::MAX);
    assert_eq!(served.phrase, "Trying");
    assert_eq!(
        served.tags,
        vec![
            Tag::_NuUrl("sip:a@b".to_string()),
            Tag::Null,
            Tag::_SipSubjectStr(String::new()),
        ]
    );
}

#[test]
fn builder_creates_on_the_reactor_it_names() {
    let mut world = World::new();
    let mut su = Su::new();
    let root = world.root(&mut su);
    world.engine.calls.clear();

    let builder = NuaBuilder::default()
        .root(&root)
        .tag(Tag::NuUrl("sip:*:5080".to_string()).unwrap());
    let mut nua = Nua::_new();
    world.drive(|_, reply| builder.create_nua(&mut nua, &mut su, 3, reply)).unwrap();
    assert_eq!(nua.root(), root.address());
    assert!(!is_default_root_initialized(&su));
    assert_eq!(
        world.engine.calls,
        vec![Call::NuaCreate {
            root: root.address(),
            magic: 3,
            tags: vec![
                WireTag {
                    t_tag: Symbol::NuUrl,
                    t_type: None,
                    t_value: Some(b"sip:*:5080".to_vec()),
                },
                WireTag { t_tag: Symbol::Null, t_type: None, t_value: None },
            ],
        }]
    );

    let mut handle = Handle::_new();
    let for_handle = NuaBuilder::default().tag(Tag::SipTo("sip:b@c".to_string()).unwrap());
    world.drive(|_, reply| for_handle.create_handle(&mut handle, &nua, 4, reply)).unwrap();
    assert_eq!(handle.nua(), nua.c_ptr());
    assert_eq!(
        for_handle.create_tags(),
        vec![Tag::SipTo("sip:b@c".to_string()).unwrap()]
    );
}

#[test]
fn builder_falls_back_to_the_default_reactor() {
    let mut world = World::new();
    let mut su = Su::new();
    let builder = NuaBuilder::default();
    let mut nua = Nua::_new();
    world.drive(|_, reply| builder.create(&mut nua, &mut su, 3, reply)).unwrap();
    assert!(is_default_root_initialized(&su));
    assert_eq!(nua.state(), NuaState::Active);
    assert_eq!(world.engine.count(|c| *c == Call::RootCreate), 1);
    assert!(builder.create_tags().is_empty());
}

#[test]
fn interleaved_operations_never_repeat_a_request() {
    let mut world = World::new();
    let mut su = Su::new();
    let root = world.root(&mut su);
    let agent = world.agent(&root, &[]).unwrap();
    let nua = &mut world.agents[agent - 1];
    let at = nua.c_ptr();
    let step = Progress::Perform(Call::RootStep { root: root.address(), timeout: 1 });

    /* a destruction starts ... */
    assert_eq!(nua.destroy(Reply::Start), Progress::Perform(Call::NuaShutdown { nua: at }));
    /* ... and while its call runs, an event sink shuts down and waits on its own */
    assert_eq!(nua.shutdown(), Progress::Done(()));
    assert_eq!(nua.shutdown_and_wait(Reply::Start), step);
    assert_eq!(nua.shutdown_and_wait(Reply::Remaining(3)), step);
    nua._on_sys_nua_event(Event::ReplyShutdown, 200);
    assert_eq!(nua.shutdown_and_wait(Reply::Remaining(0)), Progress::Done(()));
    /* the destruction resumes and finds the shutdown confirmed */
    assert_eq!(
        nua.destroy(Reply::Done),
        Progress::Finish(Call::NuaDestroy { nua: at }, ())
    );
    /* nothing is asked of a destroyed agent */
    assert_eq!(nua.shutdown(), Progress::Done(()));
    assert_eq!(nua.shutdown_and_wait(Reply::Start), Progress::Done(()));
    assert_eq!(nua.destroy(Reply::Start), Progress::Done(()));
    assert_eq!(nua.destroy(Reply::Remaining(-1)), Progress::Done(()));
}
