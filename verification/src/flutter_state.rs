//! What the frontend asks about the application: identity, options and peers.
//!
//! The values are those of the configuration that the rest of the engine uses; it
//! is loaded and stored by the caller. What this build does not offer is reported as
//! absent, never made up.
use vstd::prelude::*;
use crate::entries;
use crate::entries::Entries;
use crate::flutter_surface;
use crate::identity;
use crate::json;
use crate::text;

verus! {

/// The configuration of this application.
pub struct AppConfig {
    pub id: String,
    /// What identifies the machine; empty where nothing does.
    pub machine: Vec<u8>,
    pub options: Entries,
    pub local_options: Entries,
    pub rendezvous_server: String,
}

/// What is stored about a peer.
pub struct PeerConfig {
    pub options: Entries,
    pub password: Vec<u8>,
    pub hostname: String,
}

/// The version of this package.
pub const PACKAGE_VERSION: &'static str = "0.1.0";

/// Longest value of an option of a peer, in bytes.
pub const MAX_PEER_VALUE: usize = 4096;

/// The number by which peers know this machine.
pub fn my_id(config: &AppConfig) -> (r: String)
    ensures
        r@ == config.id@,
{
    config.id.clone()
}

/// What identifies the machine, written out; nothing where it is not sixteen bytes.
pub fn uuid(config: &AppConfig) -> (r: String)
    ensures
        r@ == (if config.machine@.len() == 16 {
            identity::uuid_text(config.machine@)
        } else {
            Seq::empty()
        }),
{
    match identity::uuid_string(config.machine.as_slice()) {
        Some(s) => s,
        None => empty(),
    }
}

fn empty() -> (r: String)
    ensures
        r@ == Seq::<char>::empty(),
{
    let r = String::new();
    assert(r@ =~= Seq::<char>::empty());
    r
}

/// The version that peers are told.
pub fn version() -> (r: String)
    ensures
        r@ == "1.4.9"@,
{
    crate::REPORTED_VERSION.to_owned()
}

/// The name of the product.
pub fn app_name() -> (r: String)
    ensures
        r@ == "RustDesk"@,
{
    crate::APP_NAME.to_owned()
}

/// The licence of a custom client, of which there is none.
pub fn license() -> (r: String)
    ensures
        r@ == Seq::<char>::empty(),
{
    empty()
}

/// The scheme of links.
pub fn uri_prefix() -> (r: String)
    ensures
        r@ == "rustdesk"@,
        r@ == text::lowered("RustDesk"@),
{
    let r = text::ascii_lowercase(crate::APP_NAME);
    proof {
        reveal_strlit("RustDesk");
        reveal_strlit("rustdesk");
        assert(r@ =~= "rustdesk"@);
    }
    r
}

/// The release, in place of the date of a build.
pub fn build_date() -> (r: String)
    ensures
        r@ == PACKAGE_VERSION@,
{
    PACKAGE_VERSION.to_owned()
}

/// The text for a key in a language; without translations, the key itself.
pub fn translate(name: String, locale: String) -> (r: String)
    ensures
        r@ == name@,
{
    let _ = locale;
    name
}

/// Entries as an object of texts, from place `i` on put into `object`.
pub open spec fn as_texts(
    object: json::ObjectView,
    items: Seq<(Seq<char>, Seq<char>)>,
) -> json::ObjectView
    decreases items.len(),
{
    if items.len() == 0 {
        object
    } else {
        as_texts(object, items.drop_last()).with(
            items.last().0,
            json::json_string(items.last().1),
        )
    }
}

/// Entries as a JSON object of texts.
pub fn entries_json(items: &Entries) -> (r: json::Object)
    ensures
        r@ == as_texts(json::ObjectView::empty(), items@),
{
    let mut object = json::Object::new();
    let mut i: usize = 0;
    assert(items@.take(0) =~= Seq::<(Seq<char>, Seq<char>)>::empty());
    while i < items.items.len()
        invariant
            i <= items@.len(),
            items@.len() == items.items@.len(),
            object@ == as_texts(json::ObjectView::empty(), items@.take(i as int)),
        decreases items@.len() - i,
    {
        let ghost head = items@.take(i + 1);
        assert(head.drop_last() =~= items@.take(i as int));
        assert(head.last() == (items.items@[i as int].0@, items.items@[i as int].1@));
        object.put_text(items.items[i].0.as_str(), items.items[i].1.as_str());
        i = i + 1;
    }
    assert(items@.take(i as int) =~= items@);
    object
}

/// All options as a JSON object.
pub fn options_json(config: &AppConfig) -> (r: String)
    ensures
        r@ == as_texts(json::ObjectView::empty(), config.options@).text(),
{
    entries_json(&config.options).text()
}

/// What is written for a field: a text as it is, and anything else as its JSON text.
pub open spec fn written(field: json::FieldView) -> Seq<char> {
    match field.text {
        Some(s) => s,
        None => field.json,
    }
}

/// Keys and values that a JSON object asks to be written.
pub open spec fn writes_of(fields: Seq<json::FieldView>) -> Seq<(Seq<char>, Seq<char>)> {
    Seq::new(fields.len(), |i: int| (fields[i].key, written(fields[i])))
}

/// Pairs of texts as sequences.
pub open spec fn pair_views(v: Seq<(String, String)>) -> Seq<(Seq<char>, Seq<char>)> {
    Seq::new(v.len(), |i: int| (v[i].0@, v[i].1@))
}

/// The options that fields ask to be written.
pub fn field_writes(fields: &Vec<json::Field>) -> (r: Vec<(String, String)>)
    ensures
        pair_views(r@) == writes_of(json::field_views(fields@)),
{
    let mut writes: Vec<(String, String)> = Vec::new();
    let mut i: usize = 0;
    while i < fields.len()
        invariant
            i <= fields@.len(),
            writes@.len() == i,
            forall|j: int|
                0 <= j < i ==> (#[trigger] writes@[j]).0@ == fields@[j]@.key && writes@[j].1@
                    == written(fields@[j]@),
        decreases fields@.len() - i,
    {
        let value = match &fields[i].text {
            Some(s) => s.clone(),
            None => fields[i].json.clone(),
        };
        writes.push((fields[i].key.clone(), value));
        i = i + 1;
    }
    assert(pair_views(writes@) =~= writes_of(json::field_views(fields@)));
    writes
}

/// How many of the first `n` writes did not take: what is stored after them is not
/// what was written.
pub open spec fn refused(writes: Seq<(String, String)>, stored: Seq<String>, n: nat) -> nat
    decreases n,
{
    if n == 0 {
        0
    } else {
        refused(writes, stored, (n - 1) as nat) + if stored[n - 1]@ == writes[n - 1].1@ {
            0nat
        } else {
            1nat
        }
    }
}

/// How many writes did not take, from what was stored after each.
pub fn set_options_json(writes: &Vec<(String, String)>, stored: &Vec<String>) -> (r: usize)
    requires
        stored@.len() == writes@.len(),
    ensures
        r == refused(writes@, stored@, writes@.len()),
{
    let mut rejected: usize = 0;
    let mut i: usize = 0;
    while i < writes.len()
        invariant
            i <= writes@.len(),
            stored@.len() == writes@.len(),
            rejected <= i,
            rejected == refused(writes@, stored@, i as nat),
        decreases writes@.len() - i,
    {
        if !text::same_text(stored[i].as_str(), writes[i].1.as_str()) {
            rejected = rejected + 1;
        }
        i = i + 1;
    }
    rejected
}

/// The keys of entries that none of several pairs has, in order.
pub open spec fn gone_keys(
    items: Seq<(Seq<char>, Seq<char>)>,
    pairs: Seq<(Seq<char>, Seq<char>)>,
) -> Seq<Seq<char>>
    decreases items.len(),
{
    if items.len() == 0 {
        Seq::empty()
    } else {
        let before = gone_keys(items.drop_last(), pairs);
        if entries::last_value(pairs, items.last().0) is None {
            before.push(items.last().0)
        } else {
            before
        }
    }
}

/// The options once a JSON text took their place: exactly the entries of the object
/// that it is. A text that is no JSON object leaves the options as they are.
pub open spec fn replaced_options(options: Seq<(Seq<char>, Seq<char>)>, text: Seq<char>) -> Seq<
    (Seq<char>, Seq<char>),
> {
    match json::json_object(text) {
        Some(fields) => entries::all_placed(Seq::empty(), writes_of(fields)),
        None => options,
    }
}

fn has_pair(pairs: &Vec<(String, String)>, key: &str) -> (r: bool)
    ensures
        r == (entries::last_value(pair_views(pairs@), key@) is Some),
{
    let ghost all = pair_views(pairs@);
    let mut i: usize = pairs.len();
    assert(all.take(i as int) =~= all);
    while i > 0
        invariant
            i <= pairs@.len(),
            all == pair_views(pairs@),
            entries::last_value(all, key@) == entries::last_value(all.take(i as int), key@),
        decreases i,
    {
        i = i - 1;
        assert(all.take(i + 1).last() == (pairs@[i as int].0@, pairs@[i as int].1@));
        assert(all.take(i + 1).drop_last() =~= all.take(i as int));
        if text::same_text(pairs[i].0.as_str(), key) {
            return true;
        }
    }
    false
}

/// What a store has to do for a JSON text to take the place of the options: the keys to
/// take out, and then the values to write, each in order.
pub struct OptionPlan {
    pub removals: Vec<String>,
    pub writes: Vec<(String, String)>,
}

impl OptionPlan {
    /// What a store that follows the plan and takes every write holds in the end.
    pub open spec fn followed(self, options: Seq<(Seq<char>, Seq<char>)>) -> Seq<
        (Seq<char>, Seq<char>),
    > {
        entries::all_placed(
            entries::without_all(options, text::texts(self.removals@)),
            pair_views(self.writes@),
        )
    }
}

/// What is to be done for fields to take the place of the options.
pub fn field_plan(options: &Entries, fields: &Vec<json::Field>) -> (r: OptionPlan)
    ensures
        ({
            let pairs = writes_of(json::field_views(fields@));
            &&& pair_views(r.writes@) == pairs
            &&& text::texts(r.removals@) == gone_keys(options@, pairs)
        }),
{
    let writes = field_writes(fields);
    let ghost pairs = pair_views(writes@);
    let mut removals: Vec<String> = Vec::new();
    let mut i: usize = 0;
    assert(options@.take(0) =~= Seq::empty());
    assert(text::texts(removals@) =~= Seq::empty());
    while i < options.items.len()
        invariant
            i <= options@.len(),
            options@.len() == options.items@.len(),
            pairs == pair_views(writes@),
            text::texts(removals@) == gone_keys(options@.take(i as int), pairs),
        decreases options@.len() - i,
    {
        let ghost before = removals@;
        let ghost head = options@.take(i + 1);
        assert(head.drop_last() =~= options@.take(i as int));
        assert(head.last().0 == options.items@[i as int].0@);
        if !has_pair(&writes, options.items[i].0.as_str()) {
            removals.push(options.items[i].0.clone());
            assert(text::texts(removals@) =~= text::texts(before).push(head.last().0));
        }
        i = i + 1;
    }
    assert(options@.take(i as int) =~= options@);
    OptionPlan { removals, writes }
}

/// What is to be done for a JSON text to take the place of the options: nothing where
/// it is no JSON object.
pub fn option_plan(options: &Entries, text: &str) -> (r: OptionPlan)
    ensures
        match json::json_object(text@) {
            Some(fields) => pair_views(r.writes@) == writes_of(fields) && text::texts(r.removals@)
                == gone_keys(options@, writes_of(fields)),
            None => r.writes@.len() == 0 && r.removals@.len() == 0,
        },
{
    match json::read_object(text) {
        Some(fields) => field_plan(options, &fields),
        None => OptionPlan { removals: Vec::new(), writes: Vec::new() },
    }
}

/// Fields take the place of all entries.
pub fn replace_with_fields(options: &mut Entries, fields: &Vec<json::Field>)
    ensures
        final(options)@ == entries::all_placed(
            Seq::empty(),
            writes_of(json::field_views(fields@)),
        ),
{
    let writes = field_writes(fields);
    let ghost pairs = pair_views(writes@);
    let mut fresh = Entries::new();
    let mut i: usize = 0;
    assert(pairs.take(0) =~= Seq::empty());
    while i < writes.len()
        invariant
            i <= writes@.len(),
            pairs == pair_views(writes@),
            fresh@ == entries::all_placed(Seq::empty(), pairs.take(i as int)),
        decreases writes@.len() - i,
    {
        assert(pairs.take(i + 1).drop_last() =~= pairs.take(i as int));
        assert(pairs.take(i + 1).last() == (writes@[i as int].0@, writes@[i as int].1@));
        fresh.put(writes[i].0.as_str(), writes[i].1.as_str());
        i = i + 1;
    }
    assert(pairs.take(i as int) =~= pairs);
    *options = fresh;
}

/// A JSON text takes the place of all options that are held here; one that is no JSON
/// object changes nothing. Nothing is ever refused, so no write is counted.
pub fn replace_options(options: &mut Entries, text: &str) -> (r: usize)
    ensures
        final(options)@ == replaced_options(old(options)@, text@),
        r == 0,
{
    if let Some(fields) = json::read_object(text) {
        replace_with_fields(options, &fields);
    }
    0
}

proof fn lemma_gone_keys(
    items: Seq<(Seq<char>, Seq<char>)>,
    pairs: Seq<(Seq<char>, Seq<char>)>,
    key: Seq<char>,
)
    ensures
        gone_keys(items, pairs).contains(key) <==> entries::value_of(items, key) is Some
            && entries::last_value(pairs, key) is None,
    decreases items.len(),
{
    if items.len() > 0 {
        let before = gone_keys(items.drop_last(), pairs);
        let after = gone_keys(items, pairs);
        lemma_gone_keys(items.drop_last(), pairs, key);
        entries::lemma_value_of_last(items, key);
        if before.contains(key) {
            let i = choose|i: int| 0 <= i < before.len() && before[i] == key;
            assert(after[i] == key);
        }
        if after.contains(key) {
            let i = choose|i: int| 0 <= i < after.len() && after[i] == key;
            assert(i < before.len() ==> before[i] == key);
        }
        if items.last().0 == key && entries::last_value(pairs, key) is None {
            assert(after[after.len() - 1] == key);
        }
    }
}

/// A store that follows the plan for a JSON text, and takes every write, holds exactly
/// what the text says: each of its entries, and no other key.
pub proof fn lemma_plan_replaces_options(
    options: Seq<(Seq<char>, Seq<char>)>,
    text: Seq<char>,
    plan: OptionPlan,
)
    requires
        entries::ordered(options),
        match json::json_object(text) {
            Some(fields) => pair_views(plan.writes@) == writes_of(fields) && text::texts(
                plan.removals@,
            ) == gone_keys(options, writes_of(fields)),
            None => plan.writes@.len() == 0 && plan.removals@.len() == 0,
        },
    ensures
        plan.followed(options) == replaced_options(options, text),
{
    match json::json_object(text) {
        Some(fields) => {
            let pairs = writes_of(fields);
            let gone = gone_keys(options, pairs);
            assert forall|key: Seq<char>| #[trigger]
                gone.contains(key) <==> entries::value_of(options, key) is Some
                    && entries::last_value(pairs, key) is None by {
                lemma_gone_keys(options, pairs, key);
            }
            entries::lemma_replacement(options, gone, pairs);
        },
        None => {
            assert(text::texts(plan.removals@) =~= Seq::empty());
            assert(pair_views(plan.writes@) =~= Seq::empty());
        },
    }
}

/// After a JSON object took the place of the options, a key has the value that the
/// object gives it, and no value where the object has no such key.
pub proof fn lemma_replaced_options_are_found(
    options: Seq<(Seq<char>, Seq<char>)>,
    text: Seq<char>,
    key: Seq<char>,
)
    requires
        json::json_object(text) is Some,
    ensures
        entries::value_of(replaced_options(options, text), key) == entries::last_value(
            writes_of(json::json_object(text)->0),
            key,
        ),
        entries::ordered(replaced_options(options, text)),
{
    let pairs = writes_of(json::json_object(text)->0);
    entries::lemma_all_placed_are_found(Seq::empty(), pairs, key);
    entries::lemma_all_placed_stay_ordered(Seq::empty(), pairs);
}

/// The value of an option, or nothing.
pub fn get_option(config: &AppConfig, key: &str) -> (r: String)
    ensures
        r@ == entries::value_or_empty(config.options@, key@),
{
    config.options.get_or_empty(key)
}

/// The value of an option of this machine alone, or nothing.
pub fn get_local_option(config: &AppConfig, key: &str) -> (r: String)
    ensures
        r@ == entries::value_or_empty(config.local_options@, key@),
{
    config.local_options.get_or_empty(key)
}

/// What the settings ask for by name, as far as this build can answer.
pub open spec fn common_value(config: AppConfig, key: Seq<char>) -> Option<Seq<char>> {
    if key == "my-id"@ {
        Some(config.id@)
    } else if key == "app-name"@ {
        Some("RustDesk"@)
    } else if key == "version"@ {
        Some("1.4.9"@)
    } else if key == "build-date"@ {
        Some(PACKAGE_VERSION@)
    } else if key == "uri-prefix"@ {
        Some("rustdesk"@)
    } else if key == "license"@ {
        Some(Seq::empty())
    } else {
        None
    }
}

/// What the settings ask for by name.
pub fn common(config: &AppConfig, key: &str) -> (r: Option<String>)
    ensures
        match r {
            Some(value) => common_value(*config, key@) == Some(value@),
            None => common_value(*config, key@) is None,
        },
{
    if text::same_text(key, "my-id") {
        Some(my_id(config))
    } else if text::same_text(key, "app-name") {
        Some(app_name())
    } else if text::same_text(key, "version") {
        Some(version())
    } else if text::same_text(key, "build-date") {
        Some(build_date())
    } else if text::same_text(key, "uri-prefix") {
        Some(uri_prefix())
    } else if text::same_text(key, "license") {
        Some(license())
    } else {
        None
    }
}

/// A language: its code and its name, as a JSON array.
pub open spec fn language(code: Seq<char>, name: Seq<char>) -> Seq<char> {
    json::array_of(seq![json::json_string(code), json::json_string(name)])
}

fn language_text(code: &str, name: &str) -> (r: String)
    ensures
        r@ == language(code@, name@),
{
    let mut pair: Vec<String> = Vec::new();
    pair.push(json::quote(code));
    pair.push(json::quote(name));
    assert(text::texts(pair@) =~= seq![json::json_string(code@), json::json_string(name@)]);
    json::array_text(&pair)
}

/// The languages that the settings offer, as a JSON array.
pub fn langs_json() -> (r: String)
    ensures
        r@ == json::array_of(seq![language("en"@, "English"@), language("zh-cn"@, "简体中文"@)]),
{
    let mut all: Vec<String> = Vec::new();
    all.push(language_text("en", "English"));
    all.push(language_text("zh-cn", "简体中文"));
    assert(text::texts(all@) =~= seq![
        language("en"@, "English"@),
        language("zh-cn"@, "简体中文"@),
    ]);
    json::array_text(&all)
}

/// Whether the build fixes an option; it fixes none.
pub fn is_option_fixed(key: &str) -> (r: bool)
    ensures
        !r,
{
    let _ = key;
    false
}

/// The value of an option of a peer, or nothing.
pub fn peer_option(peer: &PeerConfig, key: &str) -> (r: String)
    ensures
        r@ == entries::value_or_empty(peer.options@, key@),
{
    peer.options.get_or_empty(key)
}

/// Whether an option of the peer `id` may be set: the peer and the option have a
/// name, and the value is not too long.
pub open spec fn settable(id: Seq<char>, key: Seq<char>, value: Seq<char>) -> bool {
    &&& id.len() > 0
    &&& key.len() > 0
    &&& vstd::utf8::encode_utf8(value).len() <= MAX_PEER_VALUE
}

/// Sets an option of the peer `id`, and tells whether its configuration has to be
/// stored.
pub fn set_peer_option(peer: &mut PeerConfig, id: &str, key: &str, value: &str) -> (r: bool)
    ensures
        r == settable(id@, key@, value@),
        final(peer).options@ == (if r {
            entries::placed(old(peer).options@, key@, value@)
        } else {
            old(peer).options@
        }),
        final(peer).password == old(peer).password,
        final(peer).hostname == old(peer).hostname,
{
    if id.is_empty() || key.is_empty() || text::byte_len(value) > MAX_PEER_VALUE {
        return false;
    }
    peer.options.put(key, value);
    true
}

/// The key under which an option of the frontend is kept, so that it never meets one
/// of the protocol.
pub open spec fn flutter_key(key: Seq<char>) -> Seq<char> {
    "flutter-"@ + key
}

/// The value of an option of the frontend for a peer, or nothing.
pub fn peer_flutter_option(peer: &PeerConfig, key: &str) -> (r: String)
    ensures
        r@ == entries::value_or_empty(peer.options@, flutter_key(key@)),
{
    peer.options.get_or_empty(text::joined("flutter-", key).as_str())
}

/// Sets an option of the frontend for the peer `id`, and tells whether its
/// configuration has to be stored.
pub fn set_peer_flutter_option(peer: &mut PeerConfig, id: &str, key: &str, value: &str) -> (r: bool)
    ensures
        r == settable(id@, key@, value@),
        final(peer).options@ == (if r {
            entries::placed(old(peer).options@, flutter_key(key@), value@)
        } else {
            old(peer).options@
        }),
        final(peer).password == old(peer).password,
        final(peer).hostname == old(peer).hostname,
{
    if id.is_empty() || key.is_empty() || text::byte_len(value) > MAX_PEER_VALUE {
        return false;
    }
    peer.options.put(text::joined("flutter-", key).as_str(), value);
    true
}

/// Forgets the password of a peer.
pub fn forget_password(peer: &mut PeerConfig)
    ensures
        final(peer).password@ == Seq::<u8>::empty(),
        final(peer).options == old(peer).options,
        final(peer).hostname == old(peer).hostname,
{
    peer.password = Vec::new();
}

/// Whether a password of a peer is stored.
pub fn peer_has_password(peer: &PeerConfig) -> (r: bool)
    ensures
        r == (peer.password@.len() > 0),
{
    peer.password.len() > 0
}

/// Whether anything is known of a peer.
pub fn peer_exists(peer: &PeerConfig) -> (r: bool)
    ensures
        r == (peer.options@.len() > 0 || peer.hostname@.len() > 0),
{
    peer.options.len() > 0 || !peer.hostname.as_str().is_empty()
}

/// Gives the peer `id` another name, and tells whether its configuration has to be
/// stored.
pub fn set_peer_alias(peer: &mut PeerConfig, id: &str, alias: &str) -> (r: bool)
    ensures
        r == (id@.len() > 0 && vstd::utf8::encode_utf8(alias@).len() <= MAX_PEER_VALUE),
        final(peer).options@ == (if r {
            entries::placed(old(peer).options@, "alias"@, alias@)
        } else {
            old(peer).options@
        }),
        final(peer).password == old(peer).password,
        final(peer).hostname == old(peer).hostname,
{
    if id.is_empty() || text::byte_len(alias) > MAX_PEER_VALUE {
        return false;
    }
    proof {
        reveal_strlit("alias");
    }
    set_peer_option(peer, id, "alias", alias)
}

/// Whether everything stored about the peer `id` may be removed.
pub fn remove_peer(id: &str) -> (r: bool)
    ensures
        r == (0 < vstd::utf8::encode_utf8(id@).len() <= 256),
{
    let len: usize = text::byte_len(id);
    len > 0 && len <= 256
}

/// The state of the registration with a server, of which there is none.
pub fn connect_status() -> (r: String)
    ensures
        r@ == Seq::<char>::empty(),
{
    empty()
}

/// The last error beside those of the sessions, of which there is none.
pub fn last_error() -> (r: String)
    ensures
        r@ == Seq::<char>::empty(),
{
    empty()
}

/// The state of a job in the background, of which there is none.
pub fn async_job_status() -> (r: String)
    ensures
        r@ == Seq::<char>::empty(),
{
    empty()
}

/// Whether the key of the server is the public one, `public`, and not a custom one: none
/// is configured, or that one is.
pub fn is_using_public_server(config: &AppConfig, public: &str) -> (r: bool)
    ensures
        r == (flutter_surface::chosen_key(
            entries::value_or_empty(config.options@, "key"@),
            public@,
        ) == public@),
{
    let configured = config.options.get_or_empty("key");
    configured.as_str().is_empty() || text::same_text(configured.as_str(), public)
}

/// The address of an account server, of which there is none.
pub fn api_server() -> (r: String)
    ensures
        r@ == Seq::<char>::empty(),
{
    empty()
}

/// The server by which peers are found.
pub fn rendezvous_server(config: &AppConfig) -> (r: String)
    ensures
        r@ == config.rendezvous_server@,
{
    config.rendezvous_server.clone()
}

/// An option of a peer that was set reads back as it was set, and setting one of the
/// frontend changes no other.
pub proof fn lemma_peer_options_read_back(
    options: Seq<(Seq<char>, Seq<char>)>,
    key: Seq<char>,
    value: Seq<char>,
    other: Seq<char>,
)
    ensures
        entries::value_or_empty(entries::placed(options, key, value), key) == value,
        other != key ==> entries::value_or_empty(entries::placed(options, key, value), other)
            == entries::value_or_empty(options, other),
        entries::value_or_empty(
            entries::placed(options, flutter_key(key), value),
            flutter_key(key),
        ) == value,
{
    entries::lemma_put_is_found(options, key, value, other);
    entries::lemma_put_is_found(options, flutter_key(key), value, other);
}

} // verus!
