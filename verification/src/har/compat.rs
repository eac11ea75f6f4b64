//! What the application asks about the runtime.
//!
//! Replies are JSON texts. What this runtime does not have is answered as not there.
use vstd::prelude::*;
use crate::entries;
use crate::flutter_state::AppConfig;
use crate::har::capability::AdvertisedCodec;
use crate::json;
use crate::text;

verus! {

/// What is said of something that this runtime does not have.
pub const UNSUPPORTED_MESSAGE: &'static str = "Not implemented by RustDesk Enhanced";

/// A reply that says whether something was done, and a text.
pub open spec fn reply(ok: bool, message: Seq<char>) -> Seq<char> {
    json::ObjectView::empty().with("ok"@, text::truth(ok)).with(
        "message"@,
        json::json_string(message),
    ).text()
}

/// The JSON text of a reply.
pub fn action(ok: bool, message: &str) -> (r: String)
    ensures
        r@ == reply(ok, message@),
{
    let mut object = json::Object::new();
    object.put_bool("ok", ok);
    object.put_text("message", message);
    object.text()
}

/// A decoder as a JSON object: what is there is a hardware decoder with a name. The
/// error is told only where there is one.
pub open spec fn decoder_json(
    codec: Seq<char>,
    mime: Seq<char>,
    available: bool,
    name: Seq<char>,
    error: Option<Seq<char>>,
) -> Seq<char> {
    let row = json::ObjectView::empty().with("codec"@, json::json_string(codec)).with(
        "mime"@,
        json::json_string(mime),
    ).with("recommendedAvailable"@, text::truth(available)).with(
        "mimeAvailable"@,
        text::truth(available),
    ).with("recommendedName"@, json::json_string(name)).with(
        "recommendedIsHardware"@,
        text::truth(available),
    ).with("hardwareAvailable"@, text::truth(available)).with(
        "hardwareName"@,
        json::json_string(name),
    ).with("softwareAvailable"@, text::truth(false)).with(
        "softwareName"@,
        json::json_string(Seq::empty()),
    );
    match error {
        Some(e) => row.with("error"@, json::json_string(e)).text(),
        None => row.text(),
    }
}

/// What is told of a decoder, from what the platform said about it.
pub open spec fn decoder_reply(
    codec: Seq<char>,
    mime: Seq<char>,
    result: Result<AdvertisedCodec, String>,
) -> Seq<char> {
    match result {
        Ok(c) => decoder_json(
            codec,
            mime,
            c.hardware && c.codec_name@.len() > 0,
            c.codec_name@,
            None,
        ),
        Err(error) => decoder_json(codec, mime, false, Seq::empty(), Some(error@)),
    }
}

/// What is told of a decoder, as a JSON text.
pub fn decoder_row(codec: &str, mime: &str, result: &Result<AdvertisedCodec, String>) -> (r: String)
    ensures
        r@ == decoder_reply(codec@, mime@, *result),
{
    let nothing = String::new();
    assert(nothing@ =~= Seq::<char>::empty());
    let (available, name) = match result {
        Ok(c) => (c.hardware && !c.codec_name.as_str().is_empty(), c.codec_name.as_str()),
        Err(_) => (false, nothing.as_str()),
    };
    let mut object = json::Object::new();
    object.put_text("codec", codec);
    object.put_text("mime", mime);
    object.put_bool("recommendedAvailable", available);
    object.put_bool("mimeAvailable", available);
    object.put_text("recommendedName", name);
    object.put_bool("recommendedIsHardware", available);
    object.put_bool("hardwareAvailable", available);
    object.put_text("hardwareName", name);
    object.put_bool("softwareAvailable", false);
    object.put_text("softwareName", nothing.as_str());
    if let Err(error) = result {
        object.put_text("error", error.as_str());
    }
    object.text()
}

/// What this runtime is.
pub fn backend_summary() -> (r: String)
    ensures
        r@ == "RustDesk Enhanced / rd-engine / native Surface"@,
{
    "RustDesk Enhanced / rd-engine / native Surface".to_owned()
}

/// Whether the runtime is loaded: it is.
pub fn healthcheck() -> (r: String)
    ensures
        r@ == reply(true, "RustDesk Enhanced native runtime loaded"@),
{
    action(true, "RustDesk Enhanced native runtime loaded")
}

/// The reply to a runtime that has an identity.
pub fn runtime_init(local_id: &str) -> (r: String)
    ensures
        r@ == json::ObjectView::empty().with("ok"@, text::truth(true)).with(
            "message"@,
            json::json_string("RustDesk Enhanced runtime initialized"@),
        ).with("localId"@, json::json_string(local_id@)).text(),
{
    let mut object = json::Object::new();
    object.put_bool("ok", true);
    object.put_text("message", "RustDesk Enhanced runtime initialized");
    object.put_text("localId", local_id);
    object.text()
}

/// The value of an option.
pub open spec fn option_of(config: AppConfig, key: Seq<char>) -> Seq<char> {
    entries::value_or_empty(config.options@, key)
}

/// The server of accounts.
pub fn runtime_get_api_server(config: &AppConfig) -> (r: String)
    ensures
        r@ == option_of(*config, "api-server"@),
{
    config.options.get_or_empty("api-server")
}

/// The account, of which there is none.
pub fn runtime_get_account_state(config: &AppConfig) -> (r: String)
    ensures
        r@ == json::ObjectView::empty().with("ok"@, text::truth(true)).with(
            "loggedIn"@,
            text::truth(false),
        ).with("apiServer"@, json::json_string(option_of(*config, "api-server"@))).with(
            "user"@,
            "null"@,
        ).with(
            "message"@,
            json::json_string("Account integration is not implemented by RustDesk Enhanced"@),
        ).text(),
{
    let mut object = json::Object::new();
    object.put_bool("ok", true);
    object.put_bool("loggedIn", false);
    object.put_text("apiServer", config.options.get_or_empty("api-server").as_str());
    object.put("user", "null");
    object.put_text("message", "Account integration is not implemented by RustDesk Enhanced");
    object.text()
}

/// The hardware decoders.
pub fn runtime_get_decoder_capabilities(
    h264: &Result<AdvertisedCodec, String>,
    h265: &Result<AdvertisedCodec, String>,
) -> (r: String)
    ensures
        r@ == json::ObjectView::empty().with("ok"@, text::truth(true)).with(
            "capabilities"@,
            json::array_of(
                seq![
                    decoder_reply("H264"@, "video/avc"@, *h264),
                    decoder_reply("H265"@, "video/hevc"@, *h265),
                ],
            ),
        ).text(),
{
    let mut rows: Vec<String> = Vec::new();
    rows.push(decoder_row("H264", "video/avc", h264));
    rows.push(decoder_row("H265", "video/hevc", h265));
    assert(text::texts(rows@) =~= seq![
        decoder_reply("H264"@, "video/avc"@, *h264),
        decoder_reply("H265"@, "video/hevc"@, *h265),
    ]);
    let mut object = json::Object::new();
    object.put_bool("ok", true);
    object.put("capabilities", json::array_text(&rows).as_str());
    object.text()
}

/// The servers as a JSON object. Nothing of them was tested.
pub open spec fn servers_json(config: AppConfig) -> Seq<char> {
    let custom = option_of(config, "custom-rendezvous-server"@).len() > 0;
    json::ObjectView::empty().with(
        "idServer"@,
        json::json_string(config.rendezvous_server@),
    ).with("relayServer"@, json::json_string(option_of(config, "relay-server"@))).with(
        "apiServer"@,
        json::json_string(option_of(config, "api-server"@)),
    ).with("effectiveApiServer"@, json::json_string(option_of(config, "api-server"@))).with(
        "key"@,
        json::json_string(option_of(config, "key"@)),
    ).with(
        "mode"@,
        json::json_string(
            if custom {
                "custom"@
            } else {
                "official"@
            },
        ),
    ).with("usingPublicServer"@, text::truth(!custom)).with(
        "remoteReachable"@,
        text::truth(false),
    ).with("accountAvailable"@, text::truth(false)).with(
        "resultState"@,
        json::json_string("idle"@),
    ).with("message"@, json::json_string(Seq::empty())).with(
        "idServerTestState"@,
        json::json_string("untested"@),
    ).with("relayServerTestState"@, json::json_string("untested"@)).with(
        "apiServerTestState"@,
        json::json_string("untested"@),
    ).text()
}

/// The servers that the configuration names.
pub fn runtime_get_server_config(config: &AppConfig) -> (r: String)
    ensures
        r@ == json::ObjectView::empty().with("ok"@, text::truth(true)).with(
            "config"@,
            servers_json(*config),
        ).text(),
{
    let nothing = String::new();
    assert(nothing@ =~= Seq::<char>::empty());
    let custom = !config.options.get_or_empty("custom-rendezvous-server").as_str().is_empty();
    let api_server = config.options.get_or_empty("api-server");
    let mode = if custom {
        "custom"
    } else {
        "official"
    };
    let mut servers = json::Object::new();
    servers.put_text("idServer", config.rendezvous_server.as_str());
    servers.put_text("relayServer", config.options.get_or_empty("relay-server").as_str());
    servers.put_text("apiServer", api_server.as_str());
    servers.put_text("effectiveApiServer", api_server.as_str());
    servers.put_text("key", config.options.get_or_empty("key").as_str());
    servers.put_text("mode", mode);
    servers.put_bool("usingPublicServer", !custom);
    servers.put_bool("remoteReachable", false);
    servers.put_bool("accountAvailable", false);
    servers.put_text("resultState", "idle");
    servers.put_text("message", nothing.as_str());
    servers.put_text("idServerTestState", "untested");
    servers.put_text("relayServerTestState", "untested");
    servers.put_text("apiServerTestState", "untested");
    let mut object = json::Object::new();
    object.put_bool("ok", true);
    object.put("config", servers.text().as_str());
    object.text()
}

/// The ways to log in to an account, of which there are none.
pub fn runtime_start_account_login_options() -> (r: String)
    ensures
        r@ == reply(false, "Account login options are not implemented by RustDesk Enhanced"@),
{
    action(false, "Account login options are not implemented by RustDesk Enhanced")
}

/// What became of the ways to log in to an account.
pub fn runtime_poll_account_login_options(config: &AppConfig) -> (r: String)
    ensures
        r@ == json::ObjectView::empty().with("ok"@, text::truth(false)).with(
            "state"@,
            json::json_string("unsupported"@),
        ).with(
            "message"@,
            json::json_string("Account login is not implemented by RustDesk Enhanced"@),
        ).with("apiServer"@, json::json_string(option_of(*config, "api-server"@))).with(
            "providers"@,
            "[]"@,
        ).text(),
{
    let mut object = json::Object::new();
    object.put_bool("ok", false);
    object.put_text("state", "unsupported");
    object.put_text("message", "Account login is not implemented by RustDesk Enhanced");
    object.put_text("apiServer", config.options.get_or_empty("api-server").as_str());
    object.put("providers", "[]");
    object.text()
}

/// A list that is empty, under a name.
pub open spec fn empty_list(name: Seq<char>) -> Seq<char> {
    json::ObjectView::empty().with("ok"@, text::truth(true)).with(name, "[]"@).text()
}

fn empty_list_text(name: &str) -> (r: String)
    ensures
        r@ == empty_list(name@),
{
    let mut object = json::Object::new();
    object.put_bool("ok", true);
    object.put(name, "[]");
    object.text()
}

/// The peers of late.
pub fn runtime_list_recent_peers() -> (r: String)
    ensures
        r@ == empty_list("peers"@),
{
    empty_list_text("peers")
}

/// The peers nearby.
pub fn runtime_list_lan_peers() -> (r: String)
    ensures
        r@ == empty_list("peers"@),
{
    empty_list_text("peers")
}

/// The favourites.
pub fn runtime_list_favorites() -> (r: String)
    ensures
        r@ == empty_list("favorites"@),
{
    empty_list_text("favorites")
}

/// The address books.
pub fn runtime_list_address_book_peers() -> (r: String)
    ensures
        r@ == empty_list("addressBooks"@),
{
    empty_list_text("addressBooks")
}

/// Starts to intercept input, which this runtime cannot.
pub fn input_interceptor_start() -> (r: String)
    ensures
        r@ == reply(false, UNSUPPORTED_MESSAGE@),
{
    action(false, UNSUPPORTED_MESSAGE)
}

/// Stops to intercept input, which was never started.
pub fn input_interceptor_stop() -> (r: String)
    ensures
        r@ == reply(true, "Input interceptor was not active"@),
{
    action(true, "Input interceptor was not active")
}

/// The input that was intercepted, whatever the limit.
pub fn input_interceptor_poll_events() -> (r: String)
    ensures
        r@ == json::ObjectView::empty().with("ok"@, text::truth(false)).with(
            "message"@,
            json::json_string(UNSUPPORTED_MESSAGE@),
        ).with("events"@, "[]"@).text(),
{
    let mut object = json::Object::new();
    object.put_bool("ok", false);
    object.put_text("message", UNSUPPORTED_MESSAGE);
    object.put("events", "[]");
    object.text()
}

/// The state of a host that was never started.
pub fn controlled_server_get_status(config: &AppConfig) -> (r: String)
    ensures
        r@ == json::ObjectView::empty().with("ok"@, text::truth(true)).with(
            "state"@,
            json::json_string("stopped"@),
        ).with("serverRunning"@, text::truth(false)).with(
            "myId"@,
            json::json_string(config.id@),
        ).with("temporaryPassword"@, json::json_string(Seq::empty())).with(
            "lastError"@,
            json::json_string(Seq::empty()),
        ).with(
            "message"@,
            json::json_string("HarmonyOS host compatibility is not started"@),
        ).text(),
{
    let nothing = String::new();
    assert(nothing@ =~= Seq::<char>::empty());
    let mut object = json::Object::new();
    object.put_bool("ok", true);
    object.put_text("state", "stopped");
    object.put_bool("serverRunning", false);
    object.put_text("myId", config.id.as_str());
    object.put_text("temporaryPassword", nothing.as_str());
    object.put_text("lastError", nothing.as_str());
    object.put_text("message", "HarmonyOS host compatibility is not started");
    object.text()
}

/// The state of a screen capture that was never started.
pub fn controlled_screen_capture_get_status() -> (r: String)
    ensures
        r@ == json::ObjectView::empty().with("ok"@, text::truth(true)).with(
            "state"@,
            json::json_string("stopped"@),
        ).with("active"@, text::truth(false)).with(
            "message"@,
            json::json_string("Screen capture is not active"@),
        ).text(),
{
    let mut object = json::Object::new();
    object.put_bool("ok", true);
    object.put_text("state", "stopped");
    object.put_bool("active", false);
    object.put_text("message", "Screen capture is not active");
    object.text()
}

} // verus!
