//! The rich-presence client lifecycle and the activity descriptor.
//!
//! The host creates a client, may connect it, pushes activity snapshots,
//! and destroys it; every remote failure is surfaced here as an explicit
//! outcome that the host shim logs and then swallows, since the boundary
//! gives these operations no failure channel. The activity descriptor is
//! a plain value type; it is translated losslessly into the presence
//! library's own builder representation at the moment it is sent.

use vstd::prelude::*;
use vstd::string::StringExecFns;

use discord_rich_presence::activity;
use discord_rich_presence::{DiscordIpc, DiscordIpcClient};

use crate::marshal::marshal_text;

verus! {

#[verifier::external_type_specification]
#[verifier::external_body]
pub struct ExDiscordIpcClient(DiscordIpcClient);

/// When an activity started and when it ends, in the unit and epoch the
/// presence service defines; carried verbatim, never reinterpreted.
#[derive(Clone, Copy, Debug)]
pub struct Timestamps {
    pub start: i64,
    pub end: i64,
}

/// The one image asset of an activity: its key and its hover text.
#[derive(Clone, Debug)]
pub struct Asset {
    pub large_image: String,
    pub large_text: String,
}

/// One button of an activity: its label and the URL it opens.
#[derive(Clone, Debug)]
pub struct Button {
    pub text: String,
    pub link: String,
}

/// A status snapshot the host asks to broadcast: texts, timestamps, one
/// image asset, and an ordered sequence of buttons.
#[derive(Clone, Debug)]
pub struct Activity {
    pub state: String,
    pub details: String,
    pub timestamps: Timestamps,
    pub assets: Asset,
    pub buttons: Vec<Button>,
}

/// The mathematical shape of a button sequence: each button is the pair
/// of its label and its URL, in the order supplied.
pub open spec fn buttons_model(bs: Seq<Button>) -> Seq<(Seq<char>, Seq<char>)> {
    bs.map(|i: int, b: Button| (b.text@, b.link@))
}

/// The outcome of a remote-presence operation. The boundary's contract
/// for these operations is void, so the host shim logs a failure and
/// swallows it; the outcome exists so that the failure is observable at
/// all.
pub enum RpcOutcome {
    Done,
    Failed(String),
}

/// Relies on `DiscordIpcClient::new`: it stores the application
/// identifier and opens no connection, so construction cannot fail and
/// never blocks on the network.
#[verifier::external_body]
fn client_new(app_id: &str) -> (c: DiscordIpcClient) {
    DiscordIpcClient::new(app_id)
}

/// Relies on `DiscordIpc::connect`: attempts the socket connection and
/// handshake; every failure comes back as `Err`, never a panic.
#[verifier::external_body]
fn client_connect(c: &mut DiscordIpcClient) -> (r: Result<(), String>) {
    match c.connect() {
        Ok(()) => Ok(()),
        Err(e) => Err(e.to_string()),
    }
}

/// Relies on `DiscordIpc::close`: flushes and shuts the socket down; on a
/// client that never connected it returns `Err`, never a panic.
#[verifier::external_body]
fn client_close(c: &mut DiscordIpcClient) -> (r: Result<(), String>) {
    match c.close() {
        Ok(()) => Ok(()),
        Err(e) => Err(e.to_string()),
    }
}

/// Relies on `DiscordIpc::set_activity`: the descriptor's fields are
/// copied verbatim into the presence library's builder (state, details,
/// both timestamps, the asset's key and hover text, and the buttons in
/// their given order) and the result is pushed over the session; every
/// failure comes back as `Err`, never a panic.
#[verifier::external_body]
fn client_set_activity(c: &mut DiscordIpcClient, a: &Activity) -> (r: Result<(), String>) {
    let buttons = a.buttons.iter().map(|b| activity::Button::new(b.text.as_str(), b.link.as_str()));
    let payload = activity::Activity::new()
        .state(a.state.as_str())
        .details(a.details.as_str())
        .timestamps(activity::Timestamps::new().start(a.timestamps.start).end(a.timestamps.end))
        .assets(activity::Assets::new().large_image(a.assets.large_image.as_str()).large_text(a.assets.large_text.as_str()))
        .buttons(buttons.collect());
    match c.set_activity(payload) {
        Ok(()) => Ok(()),
        Err(e) => Err(e.to_string()),
    }
}

/// The JSON text that the presence library serializes the translated
/// descriptor to; a function of the descriptor's field values alone.
pub uninterp spec fn activity_wire(
    state: Seq<char>,
    details: Seq<char>,
    start: i64,
    end: i64,
    large_image: Seq<char>,
    large_text: Seq<char>,
    buttons: Seq<(Seq<char>, Seq<char>)>,
) -> Seq<char>;

/// Relies on the presence library's `Serialize` implementation through
/// `serde_json::to_string`: the translated builder value serializes to a
/// JSON text determined by the descriptor's fields alone.
#[verifier::external_body]
fn activity_json(a: &Activity) -> (r: String)
    ensures
        r@ == activity_wire(
            a.state@,
            a.details@,
            a.timestamps.start,
            a.timestamps.end,
            a.assets.large_image@,
            a.assets.large_text@,
            buttons_model(a.buttons@),
        ),
{
    let buttons = a.buttons.iter().map(|b| activity::Button::new(b.text.as_str(), b.link.as_str()));
    let payload = activity::Activity::new()
        .state(a.state.as_str())
        .details(a.details.as_str())
        .timestamps(activity::Timestamps::new().start(a.timestamps.start).end(a.timestamps.end))
        .assets(activity::Assets::new().large_image(a.assets.large_image.as_str()).large_text(a.assets.large_text.as_str()))
        .buttons(buttons.collect());
    serde_json::to_string(&payload).unwrap_or_default()
}

/// The wire form of a descriptor, as the presence library would
/// serialize it: the observable face of the translation, for callers and
/// tests that cannot watch the session itself.
pub fn activity_payload_json(a: &Activity) -> (r: String)
    ensures
        r@ == activity_wire(
            a.state@,
            a.details@,
            a.timestamps.start,
            a.timestamps.end,
            a.assets.large_image@,
            a.assets.large_text@,
            buttons_model(a.buttons@),
        ),
{
    activity_json(a)
}

/// Maps an operation's result onto the outcome the host shim logs:
/// success stays success, and a failure carries its message verbatim.
pub fn outcome_of(r: Result<(), String>) -> (o: RpcOutcome)
    ensures
        o is Done <==> r is Ok,
        r matches Err(m) ==> o matches RpcOutcome::Failed(msg) && msg == m,
{
    match r {
        Ok(()) => RpcOutcome::Done,
        Err(m) => RpcOutcome::Failed(m),
    }
}

/// Creates a client bound to the given application identifier. A null
/// identifier (`None`) yields no client; any actual bytes, empty or not,
/// yield one, since construction touches no network.
pub fn rsl_rpc_create(app_id: Option<&Vec<u8>>) -> (r: Option<DiscordIpcClient>)
    ensures
        r is Some <==> app_id is Some,
{
    match marshal_text(app_id) {
        None => None,
        Some(s) => Some(client_new(s.as_str())),
    }
}

/// Attempts to connect the client; the outcome says whether the
/// transport session came up, and a failure is to be logged, not raised.
pub fn rsl_rpc_connect(client: &mut DiscordIpcClient) -> (o: RpcOutcome) {
    outcome_of(client_connect(client))
}

/// Attempts a graceful session close before the host frees the client; a
/// failure (a client that never connected, say) is to be logged, not
/// raised.
pub fn rpc_kill(client: &mut DiscordIpcClient) -> (o: RpcOutcome) {
    outcome_of(client_close(client))
}

/// Translates the descriptor and pushes it over the existing session;
/// the outcome is to be logged, not raised.
pub fn rsl_rpc_set_activity(client: &mut DiscordIpcClient, activity: &Activity) -> (o: RpcOutcome) {
    outcome_of(client_set_activity(client, activity))
}

/// The hardcoded sample activity behind the smoke-test entry point: its
/// every field is pinned here.
pub fn rpc_test_activity() -> (a: Activity)
    ensures
        a.state@ == "A test"@,
        a.details@ == "A placeholder"@,
        a.timestamps.start == 0,
        a.timestamps.end == 0,
        a.assets.large_image@ == "large-image"@,
        a.assets.large_text@ == "Large text"@,
        a.buttons@.len() == 1,
        a.buttons@[0].text@ == "A button"@,
        a.buttons@[0].link@ == "https://github.com"@,
{
    let buttons = vec![
        Button { text: String::from_str("A button"), link: String::from_str("https://github.com") },
    ];
    Activity {
        state: String::from_str("A test"),
        details: String::from_str("A placeholder"),
        timestamps: Timestamps { start: 0, end: 0 },
        assets: Asset {
            large_image: String::from_str("large-image"),
            large_text: String::from_str("Large text"),
        },
        buttons,
    }
}

/// The smoke-test entry point: builds the sample activity and pushes it;
/// the outcome is to be logged, not raised.
pub fn rsl_rpc_test(client: &mut DiscordIpcClient) -> (o: RpcOutcome) {
    let a = rpc_test_activity();
    rsl_rpc_set_activity(client, &a)
}

} // verus!
