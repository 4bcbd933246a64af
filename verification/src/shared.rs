use crate::data::messaging::{InternMessage, InternMessageView};
use crate::data::{Settings, GENERATE};
use vstd::prelude::*;

verus! {

// ---------------------------------------------------------------------------
// Which player stands for each name
// ---------------------------------------------------------------------------

/// Position `i` holds the last player of the pool that bears its name.
pub open spec fn is_last_of_name(names: Seq<String>, i: int) -> bool {
    &&& 0 <= i < names.len()
    &&& forall|j: int| i < j < names.len() ==> #[trigger] names[j]@ != names[i]@
}

/// The positions in the pool of the players that are kept when the pool is
/// keyed by name: for each name, the last player that bears it (a later
/// player replaces an earlier one of the same name). The positions come in
/// increasing order.
pub fn latest_by_name(names: &Vec<String>) -> (picked: Vec<usize>)
    ensures
        forall|k: int| 0 <= k < picked.len() ==> is_last_of_name(names@, #[trigger] picked@[k] as int),
        forall|a: int, b: int| 0 <= a < b < picked.len() ==> picked@[a] < picked@[b],
        forall|i: int| is_last_of_name(names@, i) ==> picked@.contains(i as usize),
        forall|k: int, j: int|
            #![trigger picked@[k], names@[j]]
            0 <= k < picked.len() && picked@[k] < j < names.len() ==> names@[j]@
                != names@[picked@[k] as int]@,
        forall|k: int| 0 <= k < picked.len() ==> #[trigger] picked@[k] < names.len(),
        forall|i: int|
            #![trigger picked@.contains(i as usize)]
            0 <= i < names.len() && (forall|j: int| i < j < names.len() ==> #[trigger] names@[j]@
                != names@[i]@) ==> picked@.contains(i as usize),
{
    let n = names.len();
    let mut picked: Vec<usize> = Vec::new();
    let mut i: usize = 0;
    while i < n
        invariant
            n == names.len(),
            i <= n,
            forall|k: int| 0 <= k < picked.len() ==> #[trigger] picked@[k] < i,
            forall|k: int| 0 <= k < picked.len() ==> is_last_of_name(names@, #[trigger] picked@[k] as int),
            forall|a: int, b: int| 0 <= a < b < picked.len() ==> picked@[a] < picked@[b],
            forall|x: int| 0 <= x < i && is_last_of_name(names@, x) ==> picked@.contains(x as usize),
        decreases n - i,
    {
        let mut replaced = false;
        let mut j: usize = i + 1;
        while j < n
            invariant
                n == names.len(),
                i < n,
                i + 1 <= j <= n,
                !replaced ==> forall|m: int| i < m < j ==> #[trigger] names@[m]@ != names@[i as int]@,
                replaced ==> !is_last_of_name(names@, i as int),
            decreases n - j,
        {
            if names[j] == names[i] {
                replaced = true;
            }
            j = j + 1;
        }
        let ghost before = picked@;
        if !replaced {
            picked.push(i);
            assert(picked@.last() == i);
        }
        assert forall|x: int| 0 <= x < i + 1 && is_last_of_name(names@, x) implies picked@.contains(
            x as usize,
        ) by {
            if x < i {
                let k = choose|k: int| 0 <= k < before.len() && before[k] == x as usize;
                assert(picked@[k] == x as usize);
            } else {
                assert(!replaced);
                assert(picked@[picked@.len() - 1] == i);
            }
        }
        i = i + 1;
    }
    assert forall|i: int|
        #![trigger picked@.contains(i as usize)]
        0 <= i < names.len() && (forall|j: int| i < j < names.len() ==> #[trigger] names@[j]@
            != names@[i]@) implies picked@.contains(i as usize) by {
        assert(is_last_of_name(names@, i));
    }
    picked
}

/// Keying the pool by name keeps no name twice.
pub proof fn lemma_latest_names_distinct(names: Seq<String>, picked: Seq<usize>)
    requires
        forall|k: int| 0 <= k < picked.len() ==> is_last_of_name(names, #[trigger] picked[k] as int),
        forall|a: int, b: int| 0 <= a < b < picked.len() ==> picked[a] < picked[b],
    ensures
        forall|a: int, b: int|
            0 <= a < b < picked.len() ==> names[picked[a] as int]@ != names[picked[b] as int]@,
{
    assert forall|a: int, b: int| 0 <= a < b < picked.len() implies names[picked[a] as int]@
        != names[picked[b] as int]@ by {
        assert(is_last_of_name(names, picked[a] as int));
        assert(is_last_of_name(names, picked[b] as int));
        let j = picked[b] as int;
        assert(names[j]@ != names[picked[a] as int]@);
    }
}

/// Keying the pool by name loses no name: every player's name is borne by
/// one of the kept players, found at or after that player's position.
pub proof fn lemma_latest_names_cover(names: Seq<String>, picked: Seq<usize>, i: int)
    requires
        forall|x: int| is_last_of_name(names, x) ==> picked.contains(x as usize),
        names.len() <= usize::MAX,
        0 <= i < names.len(),
    ensures
        exists|k: int|
            0 <= k < picked.len() && i <= picked[k] && names[picked[k] as int]@ == names[i]@,
    decreases names.len() - i,
{
    if is_last_of_name(names, i) {
        assert(picked.contains(i as usize));
        let k = choose|k: int| 0 <= k < picked.len() && picked[k] == i as usize;
        assert(names[picked[k] as int]@ == names[i]@);
    } else {
        let j = choose|j: int| i < j < names.len() && #[trigger] names[j]@ == names[i]@;
        lemma_latest_names_cover(names, picked, j);
        let k = choose|k: int|
            0 <= k < picked.len() && j <= picked[k] && names[picked[k] as int]@ == names[j]@;
        assert(i <= picked[k] && names[picked[k] as int]@ == names[i]@);
    }
}

// ---------------------------------------------------------------------------
// The main thread
// ---------------------------------------------------------------------------

/// Where the main thread stands. The settings it runs under are kept as
/// long as a later decision depends on them.
#[derive(Debug, Clone, Copy, PartialEq, Eq, Structural)]
pub enum MainState {
    /// Nothing read yet.
    Starting,
    /// No settings were saved; the default ones are being written.
    SavingDefaults,
    /// The simulator was asked for a player pool.
    AwaitingPlayers(Settings),
    /// The pool arrived and is being keyed by name and saved.
    StoringPlayers(Settings),
    /// The payload of the generation request is being prepared.
    Generating,
    /// The generation request went out; nothing more happens.
    Finished,
}

/// What the outside world tells the main thread.
pub enum MainEvent {
    /// The saved settings, or `None` when none could be opened.
    SettingsRead(Option<Settings>),
    /// The default settings were written.
    SettingsSaved,
    /// What the simulator's channel delivered, `None` when it was closed.
    PlayersReply(Option<InternMessage>),
    /// The keyed pool was saved.
    PlayersStored,
    /// The JSON payload of the generation request: the player count, the
    /// batch size and the players.
    RequestPayload(String),
}

/// What the main thread asks the outside world to do.
pub enum MainAction {
    /// Write these settings as the saved ones.
    SaveSettings(Settings),
    /// Send this message to the simulator and wait for its reply.
    RequestPlayers(InternMessage),
    /// Read this JSON text as the player pool, key it by name, save it.
    StorePlayers(String),
    /// Announce the draft when asked to, then prepare the payload of the
    /// generation request.
    PreparePayload { announce_draft: bool },
    /// Send this message to the simulator.
    SendRequest(InternMessage),
}

pub enum MainEventView {
    SettingsRead(Option<Settings>),
    SettingsSaved,
    PlayersReply(Option<InternMessageView>),
    PlayersStored,
    RequestPayload(Seq<char>),
}

pub enum MainActionView {
    SaveSettings(Settings),
    RequestPlayers(InternMessageView),
    StorePlayers(Seq<char>),
    PreparePayload { announce_draft: bool },
    SendRequest(InternMessageView),
}

impl View for MainEvent {
    type V = MainEventView;

    open spec fn view(&self) -> MainEventView {
        match self {
            MainEvent::SettingsRead(s) => MainEventView::SettingsRead(*s),
            MainEvent::SettingsSaved => MainEventView::SettingsSaved,
            MainEvent::PlayersReply(r) => MainEventView::PlayersReply(
                match r {
                    Some(m) => Some(m@),
                    None => None,
                },
            ),
            MainEvent::PlayersStored => MainEventView::PlayersStored,
            MainEvent::RequestPayload(p) => MainEventView::RequestPayload(p@),
        }
    }
}

impl View for MainAction {
    type V = MainActionView;

    open spec fn view(&self) -> MainActionView {
        match self {
            MainAction::SaveSettings(s) => MainActionView::SaveSettings(*s),
            MainAction::RequestPlayers(m) => MainActionView::RequestPlayers(m@),
            MainAction::StorePlayers(j) => MainActionView::StorePlayers(j@),
            MainAction::PreparePayload { announce_draft } => MainActionView::PreparePayload {
                announce_draft: *announce_draft,
            },
            MainAction::SendRequest(m) => MainActionView::SendRequest(m@),
        }
    }
}

/// The settings in force when none were saved.
pub open spec fn default_settings() -> Settings {
    Settings { draft: true, gen_players: true }
}

/// The message that asks the simulator for a player pool.
pub open spec fn players_request() -> InternMessageView {
    InternMessageView { code: Some("GEN_PLAYERS"@), msg: None }
}

/// The message that asks the simulator to generate plays for `payload`.
pub open spec fn generate_request(payload: Seq<char>) -> InternMessageView {
    InternMessageView { code: Some(GENERATE@), msg: Some(payload) }
}

/// The messages and settings the main thread works with, spelled out: the
/// pool request carries code `GEN_PLAYERS` and no payload, the generation
/// request carries code `A3A3` and the payload, and the default settings
/// turn both the draft and player generation on.
pub proof fn lemma_main_thread_values(payload: Seq<char>)
    ensures
        players_request() == (InternMessageView { code: Some("GEN_PLAYERS"@), msg: None }),
        generate_request(payload) == (InternMessageView { code: Some("A3A3"@), msg: Some(payload) }),
        default_settings() == (Settings { draft: true, gen_players: true }),
{
    reveal_strlit("A3A3");
}

/// The first decision of the main thread, spelled out: with saved settings
/// that ask for generated players it requests the pool (code
/// `GEN_PLAYERS`, no payload) and waits; with saved settings that do not,
/// it goes on to the generation request, announcing the draft exactly when
/// the settings turn it off; with none saved, it saves draft on and player
/// generation on.
pub proof fn lemma_first_decision(s: Settings)
    ensures
        s.gen_players ==> main_next(MainState::Starting, MainEventView::SettingsRead(Some(s)))
            == Some(
            (
                MainState::AwaitingPlayers(s),
                MainActionView::RequestPlayers(
                    InternMessageView { code: Some("GEN_PLAYERS"@), msg: None },
                ),
            ),
        ),
        !s.gen_players ==> main_next(MainState::Starting, MainEventView::SettingsRead(Some(s)))
            == Some(
            (MainState::Generating, MainActionView::PreparePayload { announce_draft: !s.draft }),
        ),
        main_next(MainState::Starting, MainEventView::SettingsRead(None)) == Some(
            (
                MainState::SavingDefaults,
                MainActionView::SaveSettings(Settings { draft: true, gen_players: true }),
            ),
        ),
{
}

/// What follows once the settings are known: a player pool is requested
/// when the settings ask for one; otherwise the thread goes straight to the
/// generation request, announcing the draft when the settings turn it off.
pub open spec fn after_settings(s: Settings) -> (MainState, MainActionView) {
    if s.gen_players {
        (MainState::AwaitingPlayers(s), MainActionView::RequestPlayers(players_request()))
    } else {
        (MainState::Generating, MainActionView::PreparePayload { announce_draft: !s.draft })
    }
}

/// The main thread's decisions: its next state and action on `event`, or
/// `None` where it stops without one (a reply with no pool in it, or an
/// event the current state does not wait for).
pub open spec fn main_next(state: MainState, event: MainEventView) -> Option<(MainState, MainActionView)> {
    match state {
        MainState::Starting => match event {
            MainEventView::SettingsRead(Some(s)) => Some(after_settings(s)),
            MainEventView::SettingsRead(None) => Some(
                (MainState::SavingDefaults, MainActionView::SaveSettings(default_settings())),
            ),
            _ => None,
        },
        MainState::SavingDefaults => match event {
            MainEventView::SettingsSaved => Some(after_settings(default_settings())),
            _ => None,
        },
        MainState::AwaitingPlayers(s) => match event {
            MainEventView::PlayersReply(Some(reply)) => match reply.msg {
                Some(pool) => Some((MainState::StoringPlayers(s), MainActionView::StorePlayers(pool))),
                None => None,
            },
            _ => None,
        },
        MainState::StoringPlayers(s) => match event {
            MainEventView::PlayersStored => Some(
                (MainState::Generating, MainActionView::PreparePayload { announce_draft: !s.draft }),
            ),
            _ => None,
        },
        MainState::Generating => match event {
            MainEventView::RequestPayload(p) => Some(
                (MainState::Finished, MainActionView::SendRequest(generate_request(p))),
            ),
            _ => None,
        },
        MainState::Finished => None,
    }
}

impl MainState {
    pub fn start() -> (s: MainState)
        ensures
            s == MainState::Starting,
    {
        MainState::Starting
    }
}

fn continue_with(s: Settings) -> (out: (MainState, MainAction))
    ensures
        (out.0, out.1@) == after_settings(s),
{
    if s.gen_players {
        let request = InternMessage::new(Some(String::from_str("GEN_PLAYERS")), None);
        (MainState::AwaitingPlayers(s), MainAction::RequestPlayers(request))
    } else {
        (MainState::Generating, MainAction::PreparePayload { announce_draft: !s.draft })
    }
}

/// One step of the main thread: what it does on `event` in `state`.
pub fn main_step(state: MainState, event: MainEvent) -> (out: Option<(MainState, MainAction)>)
    ensures
        match main_next(state, event@) {
            None => out is None,
            Some((next, action)) => out matches Some((n, a)) && n == next && a@ == action,
        },
{
    match state {
        MainState::Starting => match event {
            MainEvent::SettingsRead(Some(s)) => Some(continue_with(s)),
            MainEvent::SettingsRead(None) => Some(
                (MainState::SavingDefaults, MainAction::SaveSettings(Settings::new())),
            ),
            _ => None,
        },
        MainState::SavingDefaults => match event {
            MainEvent::SettingsSaved => Some(continue_with(Settings::new())),
            _ => None,
        },
        MainState::AwaitingPlayers(s) => match event {
            MainEvent::PlayersReply(Some(reply)) => match reply.msg {
                Some(pool) => Some((MainState::StoringPlayers(s), MainAction::StorePlayers(pool))),
                None => None,
            },
            _ => None,
        },
        MainState::StoringPlayers(s) => match event {
            MainEvent::PlayersStored => Some(
                (MainState::Generating, MainAction::PreparePayload { announce_draft: !s.draft }),
            ),
            _ => None,
        },
        MainState::Generating => match event {
            MainEvent::RequestPayload(p) => {
                let request = InternMessage::new(Some(String::from_str(GENERATE)), Some(p));
                Some((MainState::Finished, MainAction::SendRequest(request)))
            },
            _ => None,
        },
        MainState::Finished => None,
    }
}

/// The state the main thread reaches through `events`, with the actions it
/// took on the way; `None` when it stops before the last of them.
pub open spec fn main_run(state: MainState, events: Seq<MainEventView>) -> Option<
    (MainState, Seq<MainActionView>),
>
    decreases events.len(),
{
    if events.len() == 0 {
        Some((state, Seq::empty()))
    } else {
        match main_next(state, events[0]) {
            None => None,
            Some((next, action)) => match main_run(next, events.drop_first()) {
                None => None,
                Some((last, actions)) => Some((last, seq![action] + actions)),
            },
        }
    }
}

/// The simulator is asked for a player pool exactly when the settings ask
/// for generated players; otherwise the draft is announced exactly when the
/// settings turn it off.
pub proof fn lemma_players_requested_iff_generation(s: Settings)
    ensures
        (main_next(MainState::Starting, MainEventView::SettingsRead(Some(s))) matches Some(
            (_, MainActionView::RequestPlayers(m)),
        )) <==> s.gen_players,
        !s.gen_players ==> main_next(MainState::Starting, MainEventView::SettingsRead(Some(s)))
            == Some(
            (MainState::Generating, MainActionView::PreparePayload { announce_draft: !s.draft }),
        ),
{
}

/// Every message the main thread sends to the simulator is either the
/// request for a player pool or a generation request with code `GENERATE`.
pub proof fn lemma_requests_are_known(state: MainState, event: MainEventView)
    ensures
        main_next(state, event) matches Some((_, MainActionView::RequestPlayers(m))) ==> m
            == players_request(),
        main_next(state, event) matches Some((_, MainActionView::SendRequest(m))) ==> m.code == Some(
            GENERATE@,
        ),
{
}

/// After the generation request nothing more happens, and a reply from
/// the simulator without a pool in it stops the thread.
pub proof fn lemma_stops(s: Settings, event: MainEventView, reply: Option<InternMessageView>)
    ensures
        main_next(MainState::Finished, event) is None,
        main_next(MainState::AwaitingPlayers(s), MainEventView::PlayersReply(reply)) is None
            <==> (reply is None || reply->0.msg is None),
{
}

/// A whole run with saved settings that ask for generated players: the pool
/// is requested, the reply's pool stored, the draft announced exactly when
/// the settings turn it off, and the run ends with one generation request
/// carrying the payload.
pub proof fn lemma_run_with_generation(s: Settings, reply: InternMessageView, payload: Seq<char>)
    requires
        s.gen_players,
        reply.msg is Some,
    ensures
        main_run(
            MainState::Starting,
            seq![
                MainEventView::SettingsRead(Some(s)),
                MainEventView::PlayersReply(Some(reply)),
                MainEventView::PlayersStored,
                MainEventView::RequestPayload(payload),
            ],
        ) == Some(
            (
                MainState::Finished,
                seq![
                    MainActionView::RequestPlayers(players_request()),
                    MainActionView::StorePlayers(reply.msg->0),
                    MainActionView::PreparePayload { announce_draft: !s.draft },
                    MainActionView::SendRequest(generate_request(payload)),
                ],
            ),
        ),
{
    let events = seq![
        MainEventView::SettingsRead(Some(s)),
        MainEventView::PlayersReply(Some(reply)),
        MainEventView::PlayersStored,
        MainEventView::RequestPayload(payload),
    ];
    let e1 = events.drop_first();
    let e2 = e1.drop_first();
    let e3 = e2.drop_first();
    assert(e3.drop_first() =~= Seq::<MainEventView>::empty());
    reveal_with_fuel(main_run, 5);
    let a = seq![
        MainActionView::RequestPlayers(players_request()),
        MainActionView::StorePlayers(reply.msg->0),
        MainActionView::PreparePayload { announce_draft: !s.draft },
        MainActionView::SendRequest(generate_request(payload)),
    ];
    assert(seq![a[3]] + Seq::<MainActionView>::empty() =~= a.drop_first().drop_first().drop_first());
    assert(seq![a[2]] + a.drop_first().drop_first().drop_first() =~= a.drop_first().drop_first());
    assert(seq![a[1]] + a.drop_first().drop_first() =~= a.drop_first());
    assert(seq![a[0]] + a.drop_first() =~= a);
}

/// A whole run with saved settings that do not ask for generated players:
/// the draft is announced exactly when the settings turn it off, and the
/// run ends with one generation request carrying the payload.
pub proof fn lemma_run_without_generation(s: Settings, payload: Seq<char>)
    requires
        !s.gen_players,
    ensures
        main_run(
            MainState::Starting,
            seq![MainEventView::SettingsRead(Some(s)), MainEventView::RequestPayload(payload)],
        ) == Some(
            (
                MainState::Finished,
                seq![
                    MainActionView::PreparePayload { announce_draft: !s.draft },
                    MainActionView::SendRequest(generate_request(payload)),
                ],
            ),
        ),
{
    let events = seq![MainEventView::SettingsRead(Some(s)), MainEventView::RequestPayload(payload)];
    assert(events.drop_first().drop_first() =~= Seq::<MainEventView>::empty());
    reveal_with_fuel(main_run, 3);
    let a = seq![
        MainActionView::PreparePayload { announce_draft: !s.draft },
        MainActionView::SendRequest(generate_request(payload)),
    ];
    assert(seq![a[1]] + Seq::<MainActionView>::empty() =~= a.drop_first());
    assert(seq![a[0]] + a.drop_first() =~= a);
}

/// A whole run with no saved settings: the default settings are saved,
/// and then, as they ask for generated players and a draft, the pool is
/// requested and stored, no announcement is made, and the run ends with one
/// generation request carrying the payload.
pub proof fn lemma_run_from_defaults(reply: InternMessageView, payload: Seq<char>)
    requires
        reply.msg is Some,
    ensures
        main_run(
            MainState::Starting,
            seq![
                MainEventView::SettingsRead(None),
                MainEventView::SettingsSaved,
                MainEventView::PlayersReply(Some(reply)),
                MainEventView::PlayersStored,
                MainEventView::RequestPayload(payload),
            ],
        ) == Some(
            (
                MainState::Finished,
                seq![
                    MainActionView::SaveSettings(default_settings()),
                    MainActionView::RequestPlayers(players_request()),
                    MainActionView::StorePlayers(reply.msg->0),
                    MainActionView::PreparePayload { announce_draft: false },
                    MainActionView::SendRequest(generate_request(payload)),
                ],
            ),
        ),
{
    let events = seq![
        MainEventView::SettingsRead(None),
        MainEventView::SettingsSaved,
        MainEventView::PlayersReply(Some(reply)),
        MainEventView::PlayersStored,
        MainEventView::RequestPayload(payload),
    ];
    let rest = events.drop_first();
    assert(rest =~= seq![
        MainEventView::SettingsSaved,
        MainEventView::PlayersReply(Some(reply)),
        MainEventView::PlayersStored,
        MainEventView::RequestPayload(payload),
    ]);
    lemma_run_with_generation(default_settings(), reply, payload);
    let tail = seq![
        MainActionView::RequestPlayers(players_request()),
        MainActionView::StorePlayers(reply.msg->0),
        MainActionView::PreparePayload { announce_draft: false },
        MainActionView::SendRequest(generate_request(payload)),
    ];
    let e1 = rest.drop_first();
    let e2 = e1.drop_first();
    let e3 = e2.drop_first();
    assert(e3.drop_first() =~= Seq::<MainEventView>::empty());
    reveal_with_fuel(main_run, 6);
    assert(seq![MainActionView::SaveSettings(default_settings())] + tail =~= seq![
        MainActionView::SaveSettings(default_settings()),
        MainActionView::RequestPlayers(players_request()),
        MainActionView::StorePlayers(reply.msg->0),
        MainActionView::PreparePayload { announce_draft: false },
        MainActionView::SendRequest(generate_request(payload)),
    ]);
}

/// The settings a run goes by, given the outcome of reading the saved ones.
pub open spec fn effective_settings(read: Option<Settings>) -> Settings {
    match read {
        Some(s) => s,
        None => default_settings(),
    }
}

proof fn lemma_finish_from_generating(events: Seq<MainEventView>, acts: Seq<MainActionView>)
    requires
        main_run(MainState::Generating, events) == Some((MainState::Finished, acts)),
    ensures
        events.len() == 1,
        events[0] matches MainEventView::RequestPayload(p) && acts == seq![
            MainActionView::SendRequest(generate_request(p)),
        ],
{
    let rest = events.drop_first();
    if rest.len() > 0 {
        assert(main_run(MainState::Finished, rest) is None);
    }
    assert(seq![acts[0]] + Seq::<MainActionView>::empty() =~= seq![acts[0]]);
}

proof fn lemma_finish_from_storing(s: Settings, events: Seq<MainEventView>, acts: Seq<MainActionView>)
    requires
        main_run(MainState::StoringPlayers(s), events) == Some((MainState::Finished, acts)),
    ensures
        events.len() == 2,
        events[0] == MainEventView::PlayersStored,
        events[1] matches MainEventView::RequestPayload(p) && acts == seq![
            MainActionView::PreparePayload { announce_draft: !s.draft },
            MainActionView::SendRequest(generate_request(p)),
        ],
{
    let rest = events.drop_first();
    let run_rest = main_run(MainState::Generating, rest)->0;
    let tail = run_rest.1;
    lemma_finish_from_generating(rest, tail);
    assert(rest[0] == events[1]);
    assert(acts =~= seq![MainActionView::PreparePayload { announce_draft: !s.draft }] + tail);
}

proof fn lemma_finish_from_awaiting(s: Settings, events: Seq<MainEventView>, acts: Seq<MainActionView>)
    requires
        main_run(MainState::AwaitingPlayers(s), events) == Some((MainState::Finished, acts)),
    ensures
        events.len() == 3,
        events[1] == MainEventView::PlayersStored,
        events[0] matches MainEventView::PlayersReply(Some(reply)) && reply.msg matches Some(pool)
            && events[2] matches MainEventView::RequestPayload(p) && acts == seq![
            MainActionView::StorePlayers(pool),
            MainActionView::PreparePayload { announce_draft: !s.draft },
            MainActionView::SendRequest(generate_request(p)),
        ],
{
    let rest = events.drop_first();
    let run_rest = main_run(MainState::StoringPlayers(s), rest)->0;
    let tail = run_rest.1;
    lemma_finish_from_storing(s, rest, tail);
    assert(rest[0] == events[1] && rest[1] == events[2]);
    let pool = events[0]->PlayersReply_0->0.msg->0;
    assert(acts =~= seq![MainActionView::StorePlayers(pool)] + tail);
}

proof fn lemma_finish_after_settings(s: Settings, events: Seq<MainEventView>, acts: Seq<MainActionView>)
    requires
        main_run(after_settings(s).0, events) == Some((MainState::Finished, acts)),
    ensures
        s.gen_players ==> (events.len() == 3 && events[1] == MainEventView::PlayersStored
            && (events[0] matches MainEventView::PlayersReply(Some(reply)) && reply.msg matches Some(
            pool,
        ) && events[2] matches MainEventView::RequestPayload(p) && seq![
            after_settings(s).1,
        ] + acts == seq![
            MainActionView::RequestPlayers(players_request()),
            MainActionView::StorePlayers(pool),
            MainActionView::PreparePayload { announce_draft: !s.draft },
            MainActionView::SendRequest(generate_request(p)),
        ])),
        !s.gen_players ==> (events.len() == 1 && (events[0] matches MainEventView::RequestPayload(p)
            && seq![after_settings(s).1] + acts == seq![
            MainActionView::PreparePayload { announce_draft: !s.draft },
            MainActionView::SendRequest(generate_request(p)),
        ])),
{
    if s.gen_players {
        lemma_finish_from_awaiting(s, events, acts);
        assert(seq![after_settings(s).1] + acts =~= seq![
            MainActionView::RequestPlayers(players_request()),
            acts[0],
            acts[1],
            acts[2],
        ]);
    } else {
        lemma_finish_from_generating(events, acts);
        assert(seq![after_settings(s).1] + acts =~= seq![
            MainActionView::PreparePayload { announce_draft: !s.draft },
            acts[0],
        ]);
    }
}

/// Every run of the main thread that gets to the end has one of three
/// shapes, and takes exactly the actions listed there:
/// - with saved settings that do not ask for generated players: the draft
///   is announced exactly when the settings turn it off, then the single
///   generation request goes out;
/// - with saved settings that ask for generated players: the pool is
///   requested, exactly one reply is taken and its pool stored, then the
///   announcement decision and the generation request follow;
/// - with no saved settings: the default settings (draft on, generated
///   players on) are saved first, then it goes as in the second shape.
/// No other action is ever taken: nothing goes to the browser, and the only
/// files written are the saved settings and the stored pool.
pub proof fn lemma_complete_runs(events: Seq<MainEventView>, acts: Seq<MainActionView>)
    requires
        main_run(MainState::Starting, events) == Some((MainState::Finished, acts)),
    ensures
        (exists|s: Settings, payload: Seq<char>|
            !s.gen_players && events == seq![
                MainEventView::SettingsRead(Some(s)),
                MainEventView::RequestPayload(payload),
            ] && acts == seq![
                MainActionView::PreparePayload { announce_draft: !s.draft },
                MainActionView::SendRequest(generate_request(payload)),
            ]) || (exists|s: Settings, reply: InternMessageView, pool: Seq<char>, payload: Seq<char>|
            s.gen_players && reply.msg == Some(pool) && events == seq![
                MainEventView::SettingsRead(Some(s)),
                MainEventView::PlayersReply(Some(reply)),
                MainEventView::PlayersStored,
                MainEventView::RequestPayload(payload),
            ] && acts == seq![
                MainActionView::RequestPlayers(players_request()),
                MainActionView::StorePlayers(pool),
                MainActionView::PreparePayload { announce_draft: !s.draft },
                MainActionView::SendRequest(generate_request(payload)),
            ]) || (exists|reply: InternMessageView, pool: Seq<char>, payload: Seq<char>|
            reply.msg == Some(pool) && events == seq![
                MainEventView::SettingsRead(None),
                MainEventView::SettingsSaved,
                MainEventView::PlayersReply(Some(reply)),
                MainEventView::PlayersStored,
                MainEventView::RequestPayload(payload),
            ] && acts == seq![
                MainActionView::SaveSettings(default_settings()),
                MainActionView::RequestPlayers(players_request()),
                MainActionView::StorePlayers(pool),
                MainActionView::PreparePayload { announce_draft: false },
                MainActionView::SendRequest(generate_request(payload)),
            ]),
{
    assert(events.len() > 0);
    let rest = events.drop_first();
    match events[0] {
        MainEventView::SettingsRead(Some(s)) => {
            let run_rest = main_run(after_settings(s).0, rest)->0;
            let tail = run_rest.1;
            lemma_finish_after_settings(s, rest, tail);
            assert(acts == seq![after_settings(s).1] + tail);
            if s.gen_players {
                let reply = rest[0]->PlayersReply_0->0;
                let pool = reply.msg->0;
                let payload = rest[2]->RequestPayload_0;
                assert(events =~= seq![
                    MainEventView::SettingsRead(Some(s)),
                    MainEventView::PlayersReply(Some(reply)),
                    MainEventView::PlayersStored,
                    MainEventView::RequestPayload(payload),
                ]);
                assert(acts =~= seq![
                    MainActionView::RequestPlayers(players_request()),
                    MainActionView::StorePlayers(pool),
                    MainActionView::PreparePayload { announce_draft: !s.draft },
                    MainActionView::SendRequest(generate_request(payload)),
                ]);
                assert(s.gen_players && reply.msg == Some(pool));
            } else {
                let payload = rest[0]->RequestPayload_0;
                assert(events =~= seq![
                    MainEventView::SettingsRead(Some(s)),
                    MainEventView::RequestPayload(payload),
                ]);
                assert(acts =~= seq![
                    MainActionView::PreparePayload { announce_draft: !s.draft },
                    MainActionView::SendRequest(generate_request(payload)),
                ]);
            }
        },
        MainEventView::SettingsRead(None) => {
            reveal_with_fuel(main_run, 2);
            assert(rest.len() > 0);
            let rest2 = rest.drop_first();
            assert(rest[0] == MainEventView::SettingsSaved);
            let d = default_settings();
            let run_rest = main_run(after_settings(d).0, rest2)->0;
            let tail = run_rest.1;
            lemma_finish_after_settings(d, rest2, tail);
            let reply = rest2[0]->PlayersReply_0->0;
            let pool = reply.msg->0;
            let payload = rest2[2]->RequestPayload_0;
            assert(acts =~= seq![MainActionView::SaveSettings(d)] + (seq![after_settings(d).1] + tail));
            assert(acts =~= seq![
                MainActionView::SaveSettings(default_settings()),
                MainActionView::RequestPlayers(players_request()),
                MainActionView::StorePlayers(pool),
                MainActionView::PreparePayload { announce_draft: false },
                MainActionView::SendRequest(generate_request(payload)),
            ]);
            assert(events =~= seq![
                MainEventView::SettingsRead(None),
                MainEventView::SettingsSaved,
                MainEventView::PlayersReply(Some(reply)),
                MainEventView::PlayersStored,
                MainEventView::RequestPayload(payload),
            ]);
        },
        _ => {},
    }
}

/// In every run that gets to the end: the settings are saved exactly when
/// none could be read, and then they are the defaults; the pool is
/// requested and stored exactly when the settings in force ask for
/// generated players; exactly one reply is taken from the simulator then,
/// none otherwise; and the run ends with the generation request.
pub proof fn lemma_complete_run_effects(events: Seq<MainEventView>, acts: Seq<MainActionView>)
    requires
        main_run(MainState::Starting, events) == Some((MainState::Finished, acts)),
    ensures
        events[0] matches MainEventView::SettingsRead(read) && {
            let s = effective_settings(read);
            &&& (exists|i: int| 0 <= i < acts.len() && #[trigger] acts[i] is SaveSettings) <==> read is None
            &&& forall|i: int| 0 <= i < acts.len() && #[trigger] acts[i] is SaveSettings ==> acts[i]
                == MainActionView::SaveSettings(default_settings())
            &&& (exists|i: int| 0 <= i < acts.len() && #[trigger] acts[i] is StorePlayers) <==> s.gen_players
            &&& (exists|i: int| 0 <= i < acts.len() && #[trigger] acts[i] is RequestPlayers) <==> s.gen_players
            &&& forall|i: int| 0 <= i < acts.len() && #[trigger] acts[i] is RequestPlayers ==> acts[i]
                == MainActionView::RequestPlayers(players_request())
            &&& events.filter(|e: MainEventView| e is PlayersReply).len() == if s.gen_players { 1nat } else { 0nat }
        },
        acts.last() matches MainActionView::SendRequest(m) && events.last() matches MainEventView::RequestPayload(p)
            && m == generate_request(p),
{
    lemma_complete_runs(events, acts);
    reveal_with_fuel(Seq::filter, 6);
    if exists|s: Settings, payload: Seq<char>|
        !s.gen_players && events == seq![
            MainEventView::SettingsRead(Some(s)),
            MainEventView::RequestPayload(payload),
        ] && acts == seq![
            MainActionView::PreparePayload { announce_draft: !s.draft },
            MainActionView::SendRequest(generate_request(payload)),
        ] {
        let (s, payload) = choose|s: Settings, payload: Seq<char>|
            !s.gen_players && events == seq![
                MainEventView::SettingsRead(Some(s)),
                MainEventView::RequestPayload(payload),
            ] && acts == seq![
                MainActionView::PreparePayload { announce_draft: !s.draft },
                MainActionView::SendRequest(generate_request(payload)),
            ];
        assert(events.drop_last().drop_last() =~= Seq::<MainEventView>::empty());
        assert(events.drop_last().filter(|e: MainEventView| e is PlayersReply) =~= Seq::<MainEventView>::empty());
    } else if exists|s: Settings, reply: InternMessageView, pool: Seq<char>, payload: Seq<char>|
        s.gen_players && reply.msg == Some(pool) && events == seq![
            MainEventView::SettingsRead(Some(s)),
            MainEventView::PlayersReply(Some(reply)),
            MainEventView::PlayersStored,
            MainEventView::RequestPayload(payload),
        ] && acts == seq![
            MainActionView::RequestPlayers(players_request()),
            MainActionView::StorePlayers(pool),
            MainActionView::PreparePayload { announce_draft: !s.draft },
            MainActionView::SendRequest(generate_request(payload)),
        ] {
        let (s, reply, pool, payload) = choose|s: Settings, reply: InternMessageView, pool: Seq<char>, payload: Seq<char>|
            s.gen_players && reply.msg == Some(pool) && events == seq![
                MainEventView::SettingsRead(Some(s)),
                MainEventView::PlayersReply(Some(reply)),
                MainEventView::PlayersStored,
                MainEventView::RequestPayload(payload),
            ] && acts == seq![
                MainActionView::RequestPlayers(players_request()),
                MainActionView::StorePlayers(pool),
                MainActionView::PreparePayload { announce_draft: !s.draft },
                MainActionView::SendRequest(generate_request(payload)),
            ];
        assert(acts[1] is StorePlayers);
        assert(acts[0] is RequestPlayers);
        let e3 = events.drop_last();
        let e2 = e3.drop_last();
        let e1 = e2.drop_last();
        assert(e1.drop_last() =~= Seq::<MainEventView>::empty());
        assert(e1 =~= seq![MainEventView::SettingsRead(Some(s))]);
        assert(e1.filter(|e: MainEventView| e is PlayersReply) =~= Seq::<MainEventView>::empty());
        assert(e2.filter(|e: MainEventView| e is PlayersReply) =~= seq![MainEventView::PlayersReply(Some(reply))]);
    } else {
        let (reply, pool, payload) = choose|reply: InternMessageView, pool: Seq<char>, payload: Seq<char>|
            reply.msg == Some(pool) && events == seq![
                MainEventView::SettingsRead(None),
                MainEventView::SettingsSaved,
                MainEventView::PlayersReply(Some(reply)),
                MainEventView::PlayersStored,
                MainEventView::RequestPayload(payload),
            ] && acts == seq![
                MainActionView::SaveSettings(default_settings()),
                MainActionView::RequestPlayers(players_request()),
                MainActionView::StorePlayers(pool),
                MainActionView::PreparePayload { announce_draft: false },
                MainActionView::SendRequest(generate_request(payload)),
            ];
        assert(acts[0] is SaveSettings);
        assert(acts[2] is StorePlayers);
        assert(acts[1] is RequestPlayers);
        let e4 = events.drop_last();
        let e3 = e4.drop_last();
        let e2 = e3.drop_last();
        let e1 = e2.drop_last();
        assert(e1.drop_last() =~= Seq::<MainEventView>::empty());
        assert(e1.filter(|e: MainEventView| e is PlayersReply) =~= Seq::<MainEventView>::empty());
        assert(e2.filter(|e: MainEventView| e is PlayersReply) =~= Seq::<MainEventView>::empty());
        assert(e3.filter(|e: MainEventView| e is PlayersReply) =~= seq![MainEventView::PlayersReply(Some(reply))]);
    }
}

/// How far along the main thread is.
pub open spec fn stage_rank(state: MainState) -> nat {
    match state {
        MainState::Starting => 0,
        MainState::SavingDefaults => 1,
        MainState::AwaitingPlayers(_) => 2,
        MainState::StoringPlayers(_) => 3,
        MainState::Generating => 4,
        MainState::Finished => 5,
    }
}

/// Every step moves the main thread forward: it never comes back to a stage
/// it has left, so it takes at most five steps.
pub proof fn lemma_runs_move_forward(
    start: MainState,
    events: Seq<MainEventView>,
    reached: MainState,
    acts: Seq<MainActionView>,
)
    requires
        main_run(start, events) == Some((reached, acts)),
    ensures
        stage_rank(reached) >= stage_rank(start) + events.len(),
        acts.len() == events.len(),
    decreases events.len(),
{
    if events.len() > 0 {
        let (next, action) = main_next(start, events[0])->0;
        let rest = events.drop_first();
        let run_rest = main_run(next, rest)->0;
        lemma_runs_move_forward(next, rest, reached, run_rest.1);
    }
}

/// A run that has not got to the end has sent no generation request: the
/// request with code `GENERATE` is the last thing the main thread does.
pub proof fn lemma_unfinished_runs_send_no_generation(
    start: MainState,
    events: Seq<MainEventView>,
    reached: MainState,
    acts: Seq<MainActionView>,
)
    requires
        main_run(start, events) == Some((reached, acts)),
        reached != MainState::Finished,
    ensures
        forall|i: int| 0 <= i < acts.len() ==> !(#[trigger] acts[i] is SendRequest),
    decreases events.len(),
{
    if events.len() > 0 {
        let (next, action) = main_next(start, events[0])->0;
        let rest = events.drop_first();
        let run_rest = main_run(next, rest)->0;
        let tail = run_rest.1;
        if next == MainState::Finished {
            assert(rest.len() == 0);
        } else {
            lemma_unfinished_runs_send_no_generation(next, rest, reached, tail);
            assert(action !is SendRequest);
        }
        assert(acts == seq![action] + tail);
        assert forall|i: int| 0 <= i < acts.len() implies !(#[trigger] acts[i] is SendRequest) by {
            if i > 0 {
                assert(acts[i] == tail[i - 1]);
            }
        }
    }
}

/// Waiting for the pool, the main thread has sent the simulator the pool
/// request alone (after saving the default settings, when none were saved),
/// stored nothing and sent no generation request; a reply that is missing
/// or carries no pool then stops it.
pub proof fn lemma_waiting_for_pool(events: Seq<MainEventView>, s: Settings, acts: Seq<MainActionView>)
    requires
        main_run(MainState::Starting, events) == Some((MainState::AwaitingPlayers(s), acts)),
    ensures
        s.gen_players,
        acts == seq![MainActionView::RequestPlayers(players_request())] || acts == seq![
            MainActionView::SaveSettings(default_settings()),
            MainActionView::RequestPlayers(players_request()),
        ],
        forall|r: Option<InternMessageView>|
            (r is None || r->0.msg is None) ==> main_next(
                MainState::AwaitingPlayers(s),
                MainEventView::PlayersReply(r),
            ) is None,
{
    assert(events.len() > 0);
    let rest = events.drop_first();
    reveal_with_fuel(main_run, 3);
    lemma_runs_move_forward(MainState::Starting, events, MainState::AwaitingPlayers(s), acts);
    match events[0] {
        MainEventView::SettingsRead(Some(t)) => {
            let run_rest = main_run(after_settings(t).0, rest)->0;
            lemma_runs_move_forward(after_settings(t).0, rest, MainState::AwaitingPlayers(s), run_rest.1);
            assert(t.gen_players);
            assert(rest.len() == 0);
            assert(acts =~= seq![MainActionView::RequestPlayers(players_request())]);
        },
        MainEventView::SettingsRead(None) => {
            assert(rest.len() > 0);
            let rest2 = rest.drop_first();
            let d = default_settings();
            let run_rest = main_run(after_settings(d).0, rest2)->0;
            lemma_runs_move_forward(after_settings(d).0, rest2, MainState::AwaitingPlayers(s), run_rest.1);
            assert(rest2.len() == 0);
            assert(acts =~= seq![
                MainActionView::SaveSettings(default_settings()),
                MainActionView::RequestPlayers(players_request()),
            ]);
        },
        _ => {},
    }
}

} // verus!
