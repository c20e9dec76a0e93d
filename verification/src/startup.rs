//! How an identity is started.

use rand::Rng;
use std::path::PathBuf;
use vstd::prelude::*;
use vstd::string::StringExecFns;

use crate::account::{Backend, IpfsIdentity};
use crate::base58::{base58_bytes, base58_of, is_base58};
use crate::config::{Config, IpfsOptions, StoreSetting};
use crate::course::outcomes_stay;
use crate::error::WarpError;
use crate::keypair::{
    ed25519_point, ed25519_public, is_stored_pair, keypair_round_trip, pair_of, Keypair,
};

verus! {

/// The name under which the key store keeps the key pair of the node.
pub const KEYPAIR_KEY: &'static str = "ipfs_keypair";

/// The count of the names that a temporary repository can have.
pub const TEMP_NAMES: u32 = 1000;

/// `rand::Rng::gen_range` on `rand::thread_rng()`: a random number from `low` up
/// to, and without, `high`.
#[verifier::external_body]
fn gen_range(low: u32, high: u32) -> (r: u32)
    requires
        low < high,
    ensures
        low <= r < high,
{
    rand::thread_rng().gen_range(low, high)
}

/// The character of a decimal digit.
pub open spec fn digit_char(digit: nat) -> char {
    ('0' as nat + digit) as char
}

/// A number in decimal.
pub open spec fn decimal(n: nat) -> Seq<char>
    decreases n,
{
    if n < 10 {
        seq![digit_char(n)]
    } else {
        decimal(n / 10).push(digit_char(n % 10))
    }
}

fn digit_text(digit: u32) -> (r: &'static str)
    requires
        digit < 10,
    ensures
        r@ == seq![digit_char(digit as nat)],
{
    proof {
        reveal_strlit("0");
        reveal_strlit("1");
        reveal_strlit("2");
        reveal_strlit("3");
        reveal_strlit("4");
        reveal_strlit("5");
        reveal_strlit("6");
        reveal_strlit("7");
        reveal_strlit("8");
        reveal_strlit("9");
    }
    let text = match digit {
        0 => "0",
        1 => "1",
        2 => "2",
        3 => "3",
        4 => "4",
        5 => "5",
        6 => "6",
        7 => "7",
        8 => "8",
        _ => "9",
    };
    assert(text@ =~= seq![digit_char(digit as nat)]);
    text
}

fn decimal_text(n: u32) -> (r: String)
    ensures
        r@ == decimal(n as nat),
    decreases n,
{
    if n < 10 {
        digit_text(n).to_string()
    } else {
        let mut text = decimal_text(n / 10);
        text.append(digit_text(n % 10));
        assert(text@ =~= decimal((n / 10) as nat).push(digit_char((n % 10) as nat)));
        text
    }
}

/// The name of the temporary repository with the number `n`.
pub open spec fn temp_name_text(n: nat) -> Seq<char> {
    "ipfs-temp-"@ + decimal(n)
}

/// A number that was drawn at random from those below 1000.
pub closed spec fn is_drawn_number(n: u32) -> bool {
    call_ensures(gen_range, (0u32, 1000u32), n)
}

/// Whether `name` is the name of a temporary repository, by a number that was
/// drawn.
pub open spec fn is_temp_name(name: Seq<char>) -> bool {
    exists|n: u32|
        n < TEMP_NAMES && #[trigger] is_drawn_number(n) && name == temp_name_text(n as nat)
}

/// The name of the temporary repository with the number `n`.
pub fn temp_name(n: u32) -> (r: String)
    ensures
        r@ == temp_name_text(n as nat),
{
    "ipfs-temp-".to_string().concat(decimal_text(n).as_str())
}

/// What an identity is started from.
pub struct Launch<B: Backend> {
    /// The configuration.
    pub config: Config,
    /// The key store.
    pub tesseract: B::Tesseract,
    /// The cache, if there is one.
    pub cache: Option<B::Cache>,
}

/// What is known of an identity once its key pair and its path are.
pub struct Plan<B: Backend> {
    /// What the node is started with.
    pub options: IpfsOptions,
    /// Whether the repository goes when the identity goes.
    pub temp: bool,
    /// The settings of the stores.
    pub store_setting: StoreSetting,
    /// The key store.
    pub tesseract: B::Tesseract,
    /// The cache, if there is one.
    pub cache: Option<B::Cache>,
}

impl<B: Backend> Plan<B> {
    /// The plan for a repository at `path`.
    pub open spec fn of(launch: Launch<B>, path: PathBuf, keypair: Keypair, temp: bool) -> Plan<B> {
        Plan {
            options: IpfsOptions::of(launch.config, path, keypair),
            temp,
            store_setting: launch.config.store_setting,
            tesseract: launch.tesseract,
            cache: launch.cache,
        }
    }

    /// The plan for a repository at `path`.
    pub fn new(launch: Launch<B>, path: PathBuf, keypair: Keypair, temp: bool) -> (r: Plan<B>)
        ensures
            r == Plan::of(launch, path, keypair, temp),
    {
        let (options, store_setting) = IpfsOptions::new(launch.config, path, keypair);
        Plan { options, temp, store_setting, tesseract: launch.tesseract, cache: launch.cache }
    }
}

/// The start of an identity, by the request that is to be carried out next.
pub enum Startup<B: Backend> {
    /// Get the secret under `KEYPAIR_KEY` from the key store.
    RetrieveKeypair { launch: Launch<B> },
    /// Put `text` under `KEYPAIR_KEY` into the key store.
    StoreKeypair { keypair: Keypair, text: String, launch: Launch<B> },
    /// Join `name` to the path of the directory for temporary files.
    MakeTempPath { name: String, keypair: Keypair, launch: Launch<B> },
    /// Look whether there is something at the path of the repository.
    CheckDir { plan: Plan<B> },
    /// Create the directory of the repository.
    CreateDir { plan: Plan<B> },
    /// Start a node.
    StartNode { plan: Plan<B> },
    /// Open the identity store.
    OpenIdentityStore { ipfs: B::Ipfs, plan: Plan<B> },
    /// Open the friends store.
    OpenFriendsStore { ipfs: B::Ipfs, identity_store: B::IdentityStore, plan: Plan<B> },
    /// Nothing is left to do.
    Done(Result<IpfsIdentity<B>, WarpError>),
}

/// The outcome of a request.
pub enum StartupReply<B: Backend> {
    /// What the key store holds.
    Secret(Result<String, WarpError>),
    /// That something was done.
    Finished(Result<(), WarpError>),
    /// A path.
    Path(PathBuf),
    /// Whether there is something at a path.
    Exists(bool),
    /// A node that was started.
    Node(Result<B::Ipfs, WarpError>),
    /// A store that was opened.
    IdentityStore(Result<B::IdentityStore, WarpError>),
    /// A store that was opened.
    FriendsStore(Result<B::FriendsStore, WarpError>),
}

/// What follows once the key pair is known: a path that was given is used as it
/// is, and otherwise a temporary one is made.
pub open spec fn located<B: Backend>(
    launch: Launch<B>,
    keypair: Keypair,
    after: Startup<B>,
) -> bool {
    match launch.config.path {
        Some(path) => after == (Startup::CheckDir {
            plan: Plan::of(launch, path, keypair, false),
        }),
        None => after matches Startup::MakeTempPath { name, keypair: same, launch: rest }
            && is_temp_name(name@) && same == keypair && rest == launch,
    }
}

/// What follows a request and its outcome. An outcome that does not belong to the
/// request changes nothing.
pub open spec fn startup_step<B: Backend>(
    before: Startup<B>,
    reply: StartupReply<B>,
    after: Startup<B>,
) -> bool {
    match (before, reply) {
        (Startup::RetrieveKeypair { launch }, StartupReply::Secret(Ok(text))) => {
            if !is_base58(text@) {
                after matches Startup::Done(Err(WarpError::Base58(_)))
            } else if !is_stored_pair(base58_bytes(text@)) {
                after matches Startup::Done(Err(WarpError::Signature(_)))
            } else {
                &&& after.keypair() matches Some(keypair)
                &&& keypair.wf()
                &&& keypair.bytes@ == pair_of(base58_bytes(text@).subrange(0, 32))
                &&& located(launch, keypair, after)
            }
        },
        (Startup::RetrieveKeypair { launch }, StartupReply::Secret(Err(_))) => {
            &&& after matches Startup::StoreKeypair { keypair, text, launch: rest }
            &&& keypair.wf()
            &&& keypair.is_drawn()
            &&& base58_of(text@, keypair.bytes@)
            &&& rest == launch
        },
        (Startup::StoreKeypair { keypair, launch, .. }, StartupReply::Finished(Ok(_))) => located(
            launch,
            keypair,
            after,
        ),
        (Startup::StoreKeypair { .. }, StartupReply::Finished(Err(error))) => after
            == Startup::<B>::Done(Err(error)),
        (Startup::MakeTempPath { keypair, launch, .. }, StartupReply::Path(path)) => after == (
        Startup::CheckDir { plan: Plan::of(launch, path, keypair, true) }),
        (Startup::CheckDir { plan }, StartupReply::Exists(true)) => after == (Startup::StartNode {
            plan,
        }),
        (Startup::CheckDir { plan }, StartupReply::Exists(false)) => after == (Startup::CreateDir {
            plan,
        }),
        (Startup::CreateDir { plan }, StartupReply::Finished(Ok(_))) => after == (
        Startup::StartNode { plan }),
        (Startup::CreateDir { .. }, StartupReply::Finished(Err(error))) => after
            == Startup::<B>::Done(Err(error)),
        (Startup::StartNode { plan }, StartupReply::Node(Ok(ipfs))) => after == (
        Startup::OpenIdentityStore { ipfs, plan }),
        (Startup::StartNode { .. }, StartupReply::Node(Err(error))) => after == Startup::<B>::Done(
            Err(error),
        ),
        (
            Startup::OpenIdentityStore { ipfs, plan },
            StartupReply::IdentityStore(Ok(identity_store)),
        ) => after == (Startup::OpenFriendsStore { ipfs, identity_store, plan }),
        (Startup::OpenIdentityStore { .. }, StartupReply::IdentityStore(Err(error))) => after
            == Startup::<B>::Done(Err(error)),
        (
            Startup::OpenFriendsStore { ipfs, identity_store, plan },
            StartupReply::FriendsStore(Ok(friend_store)),
        ) => after == Startup::<B>::Done(
            Ok(
                IpfsIdentity::<B> {
                    path: plan.options.ipfs_path,
                    cache: plan.cache,
                    tesseract: plan.tesseract,
                    ipfs,
                    temp: plan.temp,
                    friend_store,
                    identity_store,
                },
            ),
        ),
        (Startup::OpenFriendsStore { .. }, StartupReply::FriendsStore(Err(error))) => after
            == Startup::<B>::Done(Err(error)),
        (before, _) => after == before,
    }
}

impl<B: Backend> Startup<B> {
    /// The plan, once there is one and while there is work to do.
    pub open spec fn plan(self) -> Option<Plan<B>> {
        match self {
            Startup::CheckDir { plan } => Some(plan),
            Startup::CreateDir { plan } => Some(plan),
            Startup::StartNode { plan } => Some(plan),
            Startup::OpenIdentityStore { plan, .. } => Some(plan),
            Startup::OpenFriendsStore { plan, .. } => Some(plan),
            _ => None,
        }
    }

    /// The key pair, once there is one and while there is work to do.
    pub open spec fn keypair(self) -> Option<Keypair> {
        match self {
            Startup::StoreKeypair { keypair, .. } => Some(keypair),
            Startup::MakeTempPath { keypair, .. } => Some(keypair),
            _ => match self.plan() {
                Some(plan) => Some(plan.options.keypair),
                None => None,
            },
        }
    }

    /// Goes on with the key pair that the key store held, or the error on
    /// reading it.
    pub fn with_stored(launch: Launch<B>, stored: Result<Keypair, WarpError>) -> (r: Startup<B>)
        ensures
            match stored {
                Ok(keypair) => located(launch, keypair, r),
                Err(error) => r == Startup::<B>::Done(Err(error)),
            },
    {
        match stored {
            Ok(keypair) => Startup::locate(launch, keypair),
            Err(error) => Startup::Done(Err(error)),
        }
    }

    /// Goes on with a key pair that was just made: it is to be stored.
    pub fn with_generated(launch: Launch<B>, keypair: Keypair) -> (r: Startup<B>)
        ensures
            r matches Startup::StoreKeypair { keypair: same, text, launch: rest } && same
                == keypair && base58_of(text@, keypair.bytes@) && rest == launch,
    {
        let text = keypair.to_text();
        Startup::StoreKeypair { keypair, text, launch }
    }

    /// Goes on without a configured path: the repository is to be the temporary one
    /// with the number `n`.
    pub fn with_number(launch: Launch<B>, keypair: Keypair, n: u32) -> (r: Startup<B>)
        ensures
            r matches Startup::MakeTempPath { name, keypair: same, launch: rest } && name@
                == temp_name_text(n as nat) && same == keypair && rest == launch,
    {
        Startup::MakeTempPath { name: temp_name(n), keypair, launch }
    }

    /// Goes on with a key pair that is stored. Where no path is configured, the
    /// number of the temporary repository is drawn.
    pub fn locate(launch: Launch<B>, keypair: Keypair) -> (r: Startup<B>)
        ensures
            located(launch, keypair, r),
    {
        let mut launch = launch;
        match launch.config.path.take() {
            Some(path) => Startup::CheckDir { plan: Plan::new(launch, path, keypair, false) },
            None => {
                let n = gen_range(0, TEMP_NAMES);
                assert(is_drawn_number(n));
                Startup::with_number(launch, keypair, n)
            },
        }
    }

    /// Takes the outcome of the request.
    pub fn next(self, reply: StartupReply<B>) -> (r: Startup<B>)
        ensures
            startup_step(self, reply, r),
    {
        match (self, reply) {
            (Startup::RetrieveKeypair { launch }, StartupReply::Secret(Ok(text))) => {
                Startup::with_stored(launch, Keypair::from_text(text.as_str()))
            },
            (Startup::RetrieveKeypair { launch }, StartupReply::Secret(Err(_))) => {
                Startup::with_generated(launch, Keypair::generate())
            },
            (
                Startup::StoreKeypair { keypair, launch, .. },
                StartupReply::Finished(Ok(_)),
            ) => Startup::locate(launch, keypair),
            (Startup::StoreKeypair { .. }, StartupReply::Finished(Err(error))) => Startup::Done(
                Err(error),
            ),
            (
                Startup::MakeTempPath { keypair, launch, .. },
                StartupReply::Path(path),
            ) => Startup::CheckDir { plan: Plan::new(launch, path, keypair, true) },
            (Startup::CheckDir { plan }, StartupReply::Exists(true)) => Startup::StartNode {
                plan,
            },
            (Startup::CheckDir { plan }, StartupReply::Exists(false)) => Startup::CreateDir {
                plan,
            },
            (Startup::CreateDir { plan }, StartupReply::Finished(Ok(_))) => Startup::StartNode {
                plan,
            },
            (Startup::CreateDir { .. }, StartupReply::Finished(Err(error))) => Startup::Done(
                Err(error),
            ),
            (
                Startup::StartNode { plan },
                StartupReply::Node(Ok(ipfs)),
            ) => Startup::OpenIdentityStore { ipfs, plan },
            (Startup::StartNode { .. }, StartupReply::Node(Err(error))) => Startup::Done(
                Err(error),
            ),
            (
                Startup::OpenIdentityStore { ipfs, plan },
                StartupReply::IdentityStore(Ok(identity_store)),
            ) => Startup::OpenFriendsStore { ipfs, identity_store, plan },
            (
                Startup::OpenIdentityStore { .. },
                StartupReply::IdentityStore(Err(error)),
            ) => Startup::Done(Err(error)),
            (
                Startup::OpenFriendsStore { ipfs, identity_store, plan },
                StartupReply::FriendsStore(Ok(friend_store)),
            ) => Startup::Done(
                Ok(
                    IpfsIdentity {
                        path: plan.options.ipfs_path,
                        cache: plan.cache,
                        tesseract: plan.tesseract,
                        ipfs,
                        temp: plan.temp,
                        friend_store,
                        identity_store,
                    },
                ),
            ),
            (
                Startup::OpenFriendsStore { .. },
                StartupReply::FriendsStore(Err(error)),
            ) => Startup::Done(Err(error)),
            (before, _) => before,
        }
    }
}

/// A course that a start can take: from `launch`, by the outcomes `replies`,
/// through `states`.
pub open spec fn startup_run<B: Backend>(
    launch: Launch<B>,
    replies: Seq<StartupReply<B>>,
    states: Seq<Startup<B>>,
) -> bool {
    &&& states.len() == replies.len() + 1
    &&& states[0] == (Startup::RetrieveKeypair { launch })
    &&& forall|i: int|
        0 <= i < replies.len() ==> startup_step(states[i], #[trigger] replies[i], states[i + 1])
}

/// A plan that is the one for `launch`: the settings are the given ones, the path
/// is the given one where one was given, and the repository is a temporary one
/// exactly where none was.
pub open spec fn plan_keeps<B: Backend>(plan: Plan<B>, launch: Launch<B>) -> bool {
    let path = plan.options.ipfs_path;
    let keypair = plan.options.keypair;
    &&& plan == Plan::of(launch, path, keypair, launch.config.path is None)
    &&& keypair.wf()
    &&& launch.config.path matches Some(given) ==> path == given
}

/// A state in which what was given at `launch` is still as it was given.
pub open spec fn state_keeps<B: Backend>(state: Startup<B>, launch: Launch<B>) -> bool {
    match state {
        Startup::RetrieveKeypair { launch: rest } => rest == launch,
        Startup::StoreKeypair { keypair, text, launch: rest } => {
            &&& rest == launch
            &&& keypair.wf()
            &&& base58_of(text@, keypair.bytes@)
        },
        Startup::MakeTempPath { name, keypair, launch: rest } => {
            &&& rest == launch
            &&& launch.config.path is None
            &&& is_temp_name(name@)
            &&& keypair.wf()
        },
        Startup::Done(Ok(identity)) => {
            &&& identity.temp <==> launch.config.path is None
            &&& launch.config.path matches Some(given) ==> identity.path == given
            &&& identity.tesseract == launch.tesseract
            &&& identity.cache == launch.cache
        },
        Startup::Done(Err(_)) => true,
        _ => state.plan() matches Some(plan) && plan_keeps(plan, launch),
    }
}

/// On every course, at every point, the start works with what it was given: the
/// node gets the configured settings and a sound key pair, the account gets the
/// given key store and cache, a given path is used as it is, and the account is
/// a temporary one exactly where no path was given.
pub proof fn startup_keeps_what_was_given<B: Backend>(
    launch: Launch<B>,
    replies: Seq<StartupReply<B>>,
    states: Seq<Startup<B>>,
    i: int,
)
    requires
        startup_run(launch, replies, states),
        0 <= i < states.len(),
    ensures
        state_keeps(states[i], launch),
    decreases i,
{
    if i > 0 {
        startup_keeps_what_was_given(launch, replies, states, i - 1);
        assert(startup_step(states[i - 1], replies[i - 1], states[i]));
    }
}

/// Once a start has a key pair, it keeps it: the pair that was stored is the one
/// that the node is started with.
pub proof fn startup_keeps_its_keypair<B: Backend>(
    launch: Launch<B>,
    replies: Seq<StartupReply<B>>,
    states: Seq<Startup<B>>,
    i: int,
    j: int,
)
    requires
        startup_run(launch, replies, states),
        0 <= i <= j < states.len(),
        states[i].keypair() is Some,
    ensures
        states[j] is Done || states[j].keypair() == states[i].keypair(),
    decreases j,
{
    if i < j {
        startup_keeps_its_keypair(launch, replies, states, i, j - 1);
        assert(startup_step(states[j - 1], replies[j - 1], states[j]));
    }
}

/// A start that ends well ends with the node and the stores that were handed to
/// it on the way.
pub proof fn startup_uses_what_was_opened<B: Backend>(
    launch: Launch<B>,
    replies: Seq<StartupReply<B>>,
    states: Seq<Startup<B>>,
    i: int,
)
    requires
        startup_run(launch, replies, states),
        0 <= i < states.len(),
    ensures
        match states[i] {
            Startup::OpenIdentityStore { ipfs, .. } => replies.take(i).contains(
                StartupReply::Node(Ok(ipfs)),
            ),
            Startup::OpenFriendsStore { ipfs, identity_store, .. } => {
                &&& replies.take(i).contains(StartupReply::Node(Ok(ipfs)))
                &&& replies.take(i).contains(StartupReply::IdentityStore(Ok(identity_store)))
            },
            Startup::Done(Ok(identity)) => {
                &&& replies.take(i).contains(StartupReply::Node(Ok(identity.ipfs)))
                &&& replies.take(i).contains(
                    StartupReply::IdentityStore(Ok(identity.identity_store)),
                )
                &&& replies.take(i).contains(
                    StartupReply::FriendsStore(Ok(identity.friend_store)),
                )
            },
            _ => true,
        },
    decreases i,
{
    if i > 0 {
        startup_uses_what_was_opened(launch, replies, states, i - 1);
        assert(startup_step(states[i - 1], replies[i - 1], states[i]));
        outcomes_stay(replies.take(i - 1), replies.take(i));
    }
}

/// On every course, a key pair is used only when the key store has it, and the
/// node is started only where its directory is there.
pub proof fn startup_keeps_the_order<B: Backend>(
    launch: Launch<B>,
    replies: Seq<StartupReply<B>>,
    states: Seq<Startup<B>>,
    i: int,
)
    requires
        startup_run(launch, replies, states),
        0 <= i < states.len(),
    ensures
        states[i] is MakeTempPath || states[i].plan() is Some || (states[i] matches Startup::Done(
            Ok(_),
        )) ==> exists|k: int|
            0 <= k < i && {
                ||| states[k] is RetrieveKeypair && (#[trigger] replies[k]
                    matches StartupReply::Secret(Ok(_)))
                ||| states[k] is StoreKeypair && (replies[k] matches StartupReply::Finished(Ok(_)))
            },
        states[i] is StartNode || states[i] is OpenIdentityStore || states[i] is OpenFriendsStore
            || (states[i] matches Startup::Done(Ok(_))) ==> exists|k: int|
            0 <= k < i && {
                ||| states[k] is CheckDir && #[trigger] replies[k] == StartupReply::<B>::Exists(
                    true,
                )
                ||| states[k] is CreateDir && (replies[k] matches StartupReply::Finished(Ok(_)))
            },
    decreases i,
{
    if i > 0 {
        startup_keeps_the_order(launch, replies, states, i - 1);
        assert(startup_step(states[i - 1], replies[i - 1], states[i]));
    }
}

/// Whether an outcome belongs to the request.
pub open spec fn startup_answers<B: Backend>(state: Startup<B>, reply: StartupReply<B>) -> bool {
    match state {
        Startup::RetrieveKeypair { .. } => reply is Secret,
        Startup::StoreKeypair { .. } => reply is Finished,
        Startup::MakeTempPath { .. } => reply is Path,
        Startup::CheckDir { .. } => reply is Exists,
        Startup::CreateDir { .. } => reply is Finished,
        Startup::StartNode { .. } => reply is Node,
        Startup::OpenIdentityStore { .. } => reply is IdentityStore,
        Startup::OpenFriendsStore { .. } => reply is FriendsStore,
        Startup::Done(_) => false,
    }
}

/// How many requests a start can still make.
pub open spec fn startup_left<B: Backend>(state: Startup<B>) -> nat {
    match state {
        Startup::RetrieveKeypair { .. } => 8,
        Startup::StoreKeypair { .. } => 7,
        Startup::MakeTempPath { .. } => 6,
        Startup::CheckDir { .. } => 5,
        Startup::CreateDir { .. } => 4,
        Startup::StartNode { .. } => 3,
        Startup::OpenIdentityStore { .. } => 2,
        Startup::OpenFriendsStore { .. } => 1,
        Startup::Done(_) => 0,
    }
}

/// A start comes to an end: each outcome that belongs to its request brings it
/// nearer, and no other moves it.
pub proof fn startup_ends<B: Backend>(
    before: Startup<B>,
    reply: StartupReply<B>,
    after: Startup<B>,
)
    requires
        startup_step(before, reply, after),
    ensures
        startup_answers(before, reply) ==> startup_left(after) < startup_left(before),
        !startup_answers(before, reply) ==> after == before,
        startup_left(before) == 0 <==> before is Done,
{
}

/// A node keeps its key pair over a restart: what the first start stored, the
/// second one reads as the same key pair.
pub proof fn restart_reads_the_stored_keypair<B: Backend>(
    first: Launch<B>,
    absent: WarpError,
    stored: Startup<B>,
    second: Launch<B>,
    text: String,
    again: Startup<B>,
)
    requires
        startup_step(
            Startup::RetrieveKeypair { launch: first },
            StartupReply::Secret(Err(absent)),
            stored,
        ),
        stored->StoreKeypair_text@ == text@,
        startup_step(
            Startup::RetrieveKeypair { launch: second },
            StartupReply::Secret(Ok(text)),
            again,
        ),
    ensures
        again.keypair() is Some,
        again.keypair()->0.bytes@ == stored->StoreKeypair_keypair.bytes@,
{
    keypair_round_trip(stored->StoreKeypair_keypair, text@);
}

/// A number is a drawn one only where the drawing, from 0 up to 1000, returned it.
proof fn lemma_drawn_number(n: u32)
    ensures
        is_drawn_number(n) <==> call_ensures(gen_range, (0u32, 1000u32), n),
{
}

/// A temporary repository is named by a number that was drawn from 0 up to 1000.
pub proof fn temporary_name_is_drawn<B: Backend>(
    launch: Launch<B>,
    keypair: Keypair,
    after: Startup<B>,
)
    requires
        call_ensures(Startup::<B>::locate, (launch, keypair), after),
        launch.config.path is None,
    ensures
        after matches Startup::MakeTempPath { name, .. } && exists|n: u32|
            n < 1000 && #[trigger] is_drawn_number(n) && name@ == "ipfs-temp-"@ + decimal(
                n as nat,
            ),
{
    let name = after->MakeTempPath_name@;
    let n = choose|n: u32|
        n < TEMP_NAMES && #[trigger] is_drawn_number(n) && name == temp_name_text(n as nat);
    lemma_drawn_number(n);
}

/// The number that decimal digits stand for.
pub open spec fn decimal_value(text: Seq<char>) -> int
    decreases text.len(),
{
    if text.len() == 0 {
        0
    } else {
        decimal_value(text.drop_last()) * 10 + (text.last() as int - '0' as int)
    }
}

/// A number in decimal stands for that number, in digits alone, and has no zero in
/// front unless it is 0.
pub proof fn decimal_stands_for_its_number(n: nat)
    ensures
        decimal_value(decimal(n)) == n,
        decimal(n).len() > 0,
        forall|i: int| 0 <= i < decimal(n).len() ==> '0' <= #[trigger] decimal(n)[i] <= '9',
        decimal(n)[0] == '0' ==> n == 0,
    decreases n,
{
    reveal_with_fuel(decimal_value, 2);
    if n < 10 {
        assert(decimal(n).drop_last() =~= Seq::<char>::empty());
    } else {
        decimal_stands_for_its_number(n / 10);
        assert(decimal(n).drop_last() =~= decimal(n / 10));
        assert(decimal(n)[0] == decimal(n / 10)[0]);
    }
}

/// A name of a temporary repository is its number behind `ipfs-temp-`, and two
/// numbers have two names.
pub proof fn temporary_names_tell_their_numbers(n: u32, m: u32, a: String, b: String)
    requires
        call_ensures(temp_name, (n,), a),
        call_ensures(temp_name, (m,), b),
    ensures
        a@ == "ipfs-temp-"@ + decimal(n as nat),
        a@ == b@ ==> n == m,
{
    decimal_stands_for_its_number(n as nat);
    decimal_stands_for_its_number(m as nat);
    let front = "ipfs-temp-"@;
    if a@ == b@ {
        assert(decimal(n as nat) =~= a@.subrange(front.len() as int, a@.len() as int));
        assert(decimal(m as nat) =~= b@.subrange(front.len() as int, b@.len() as int));
    }
}

/// The error that an outcome brings, if it brings one. That the key store has no
/// key pair is none.
pub open spec fn startup_error<B: Backend>(reply: StartupReply<B>) -> Option<WarpError> {
    match reply {
        StartupReply::Finished(Err(error)) => Some(error),
        StartupReply::Node(Err(error)) => Some(error),
        StartupReply::IdentityStore(Err(error)) => Some(error),
        StartupReply::FriendsStore(Err(error)) => Some(error),
        _ => None,
    }
}

/// Whether a stored text can be read: it is base58 of 64 bytes, the second half of
/// which is a point of the curve.
pub open spec fn is_readable(text: Seq<char>) -> bool {
    &&& is_base58(text)
    &&& base58_bytes(text).len() == 64
    &&& ed25519_point(base58_bytes(text).subrange(32, 64))
}

/// A start fails exactly where an outcome that belongs to its request brings an
/// error, with that error, or where the stored key pair cannot be read.
pub proof fn start_fails_with_its_services<B: Backend>(
    before: Startup<B>,
    reply: StartupReply<B>,
    after: Startup<B>,
)
    requires
        startup_answers(before, reply),
        call_ensures(Startup::<B>::next, (before, reply), after),
    ensures
        startup_error(reply) matches Some(error) ==> after == Startup::<B>::Done(Err(error)),
        startup_error(reply) is None ==> ((after matches Startup::Done(Err(_))) <==> (reply
            matches StartupReply::Secret(Ok(text)) && !is_readable(text@))),
{
}

/// Success follows from success: on every course on which each outcome belongs to
/// its request, none is an error, and the stored key pair is readable or absent,
/// the start does not fail, and after as many outcomes as it can need it has
/// succeeded. Whether the account is temporary, and whether its directory was
/// there, makes no difference to that.
pub proof fn start_succeeds_where_all_goes_well<B: Backend>(
    launch: Launch<B>,
    replies: Seq<StartupReply<B>>,
    states: Seq<Startup<B>>,
    i: int,
)
    requires
        startup_run(launch, replies, states),
        0 <= i < states.len(),
        forall|k: int|
            0 <= k < replies.len() ==> {
                &&& startup_error(#[trigger] replies[k]) is None
                &&& replies[k] matches StartupReply::Secret(Ok(text)) ==> is_readable(text@)
                &&& states[k] is Done || startup_answers(states[k], replies[k])
            },
    ensures
        !(states[i] matches Startup::Done(Err(_))),
        i >= 8 ==> states[i] matches Startup::Done(Ok(_)),
        startup_left(states[i]) + i <= 8 || states[i] is Done,
    decreases i,
{
    if i > 0 {
        start_succeeds_where_all_goes_well(launch, replies, states, i - 1);
        assert(startup_step(states[i - 1], replies[i - 1], states[i]));
    }
}

/// A start that failed did so with an error that an outcome brought, or because
/// the stored key pair could not be read.
pub proof fn start_invents_no_error<B: Backend>(
    launch: Launch<B>,
    replies: Seq<StartupReply<B>>,
    states: Seq<Startup<B>>,
    i: int,
)
    requires
        startup_run(launch, replies, states),
        0 <= i < states.len(),
    ensures
        states[i] matches Startup::Done(Err(error)) ==> exists|k: int|
            0 <= k < i && {
                ||| startup_error(#[trigger] replies[k]) == Some(error)
                ||| (replies[k] matches StartupReply::Secret(Ok(text)) && !is_readable(text@)) && (
                error is Base58 || error is Signature)
            },
    decreases i,
{
    if i > 0 {
        start_invents_no_error(launch, replies, states, i - 1);
        assert(startup_step(states[i - 1], replies[i - 1], states[i]));
    }
}

/// Where nothing is at the path of the repository, temporary or not, the directory
/// is created next; where something is, the node is started next. Either is for
/// the plan as it was.
pub proof fn missing_directory_is_created<B: Backend>(
    plan: Plan<B>,
    there: bool,
    after: Startup<B>,
)
    requires
        call_ensures(
            Startup::<B>::next,
            (Startup::CheckDir { plan }, StartupReply::Exists(there)),
            after,
        ),
    ensures
        after is CreateDir <==> !there,
        after is StartNode <==> there,
        after.plan() == Some(plan),
{
}

/// A directory that was there and one that was just created lead to the same: the
/// node is started for the same plan.
pub proof fn created_directory_is_as_good<B: Backend>(
    plan: Plan<B>,
    found: Startup<B>,
    creating: Startup<B>,
    created: Startup<B>,
)
    requires
        call_ensures(
            Startup::<B>::next,
            (Startup::CheckDir { plan }, StartupReply::Exists(true)),
            found,
        ),
        call_ensures(
            Startup::<B>::next,
            (Startup::CheckDir { plan }, StartupReply::Exists(false)),
            creating,
        ),
        call_ensures(
            Startup::<B>::next,
            (creating, StartupReply::Finished(Ok(()))),
            created,
        ),
    ensures
        created == found,
        found matches Startup::StartNode { plan: same } && same == plan,
{
}

/// On every course, a directory is created only where nothing was found at the
/// path, and a key pair is stored only where the key store had none: what is there
/// is not overwritten.
pub proof fn startup_overwrites_nothing<B: Backend>(
    launch: Launch<B>,
    replies: Seq<StartupReply<B>>,
    states: Seq<Startup<B>>,
    i: int,
)
    requires
        startup_run(launch, replies, states),
        0 <= i < states.len(),
    ensures
        states[i] is CreateDir ==> exists|k: int|
            0 <= k < i && states[k] is CheckDir && #[trigger] replies[k] == StartupReply::<
                B,
            >::Exists(false),
        states[i] is StoreKeypair ==> exists|k: int|
            0 <= k < i && states[k] is RetrieveKeypair && (#[trigger] replies[k]
                matches StartupReply::Secret(Err(_))),
        states[i] is StoreKeypair ==> states[i]->StoreKeypair_keypair.is_drawn(),
    decreases i,
{
    if i > 0 {
        startup_overwrites_nothing(launch, replies, states, i - 1);
        assert(startup_step(states[i - 1], replies[i - 1], states[i]));
    }
}

/// A stored key pair that can be read is the one that is used: the node gets its
/// secret half, with the public key that belongs to it, and nothing new is stored.
pub proof fn stored_pair_is_used<B: Backend>(
    launch: Launch<B>,
    text: String,
    after: Startup<B>,
)
    requires
        is_readable(text@),
        call_ensures(
            Startup::<B>::next,
            (Startup::RetrieveKeypair { launch }, StartupReply::Secret(Ok(text))),
            after,
        ),
    ensures
        after is CheckDir || after is MakeTempPath,
        after.keypair() matches Some(pair) && {
            let secret = base58_bytes(text@).subrange(0, 32);
            pair.bytes@ == secret + ed25519_public(secret)
        },
{
}

/// Where there is no stored key pair, a drawn one is stored, as base58 text, and
/// once it is stored it is the one that is used.
pub proof fn drawn_pair_is_stored_and_used<B: Backend>(
    launch: Launch<B>,
    absent: WarpError,
    storing: Startup<B>,
    after: Startup<B>,
)
    requires
        call_ensures(
            Startup::<B>::next,
            (Startup::RetrieveKeypair { launch }, StartupReply::Secret(Err(absent))),
            storing,
        ),
        call_ensures(
            Startup::<B>::next,
            (storing, StartupReply::Finished(Ok(()))),
            after,
        ),
    ensures
        storing matches Startup::StoreKeypair { keypair, text, .. } && {
            &&& keypair.is_drawn()
            &&& base58_of(text@, keypair.bytes@)
            &&& after.keypair() == Some(keypair)
        },
        after is CheckDir || after is MakeTempPath,
{
}

/// On every course, whatever the node is started with is what was configured,
/// setting by setting; the path is the configured one, or the one that was made
/// for a temporary account, and the account that comes of it is at that path.
pub proof fn node_is_started_as_configured<B: Backend>(
    launch: Launch<B>,
    replies: Seq<StartupReply<B>>,
    states: Seq<Startup<B>>,
    i: int,
)
    requires
        startup_run(launch, replies, states),
        0 <= i < states.len(),
    ensures
        states[i].plan() matches Some(plan) ==> {
            let config = launch.config;
            let options = plan.options;
            &&& options.bootstrap == config.bootstrap
            &&& options.listening_addrs == config.listen_on
            &&& options.mdns == config.ipfs_setting.mdns.enable
            &&& options.dcutr == config.ipfs_setting.dcutr.enable
            &&& options.relay == config.ipfs_setting.relay_client.enable
            &&& options.relay_addr == config.ipfs_setting.relay_client.relay_address
            &&& options.relay_server == config.ipfs_setting.relay_server.enable
            &&& options.kad_protocol is None
            &&& options.span is None
            &&& plan.store_setting.discovery == config.store_setting.discovery
            &&& plan.store_setting.broadcast_interval == config.store_setting.broadcast_interval
            &&& plan.tesseract == launch.tesseract
            &&& plan.cache == launch.cache
            &&& plan.temp <==> config.path is None
            &&& config.path matches Some(path) ==> options.ipfs_path == path
            &&& config.path is None ==> replies.take(i).contains(
                StartupReply::Path(options.ipfs_path),
            )
        },
        states[i] matches Startup::Done(Ok(account)) ==> {
            &&& account.temp <==> launch.config.path is None
            &&& launch.config.path matches Some(path) ==> account.path == path
            &&& launch.config.path is None ==> replies.take(i).contains(
                StartupReply::Path(account.path),
            )
            &&& account.tesseract == launch.tesseract
            &&& account.cache == launch.cache
        },
    decreases i,
{
    startup_keeps_what_was_given(launch, replies, states, i);
    if i > 0 {
        node_is_started_as_configured(launch, replies, states, i - 1);
        startup_keeps_what_was_given(launch, replies, states, i - 1);
        assert(startup_step(states[i - 1], replies[i - 1], states[i]));
        outcomes_stay(replies.take(i - 1), replies.take(i));
    }
}

/// The key pair is kept under its own name.
pub proof fn keypair_is_kept_under_its_own_name()
    ensures
        KEYPAIR_KEY@ == "ipfs_keypair"@,
{
}

} // verus!
