//! Waiting for the system's network: some interface other than the loopback is up and
//! has a route.
//!
//! [`NetworkWait`] decides what to do; its caller reads files and sleeps, and hands the
//! replies back.
use crate::networkdevice::error::{NetworkDeviceError, NetworkDeviceErrorView};
use crate::text;
use crate::text::{begins_with, lines_of, same_text, trimmed, CharSet};
use vstd::prelude::*;
use vstd::string::*;

verus! {

/// How often the network is looked for.
pub const MAX_RETRIES: u32 = 60;

/// The pause between two looks, in milliseconds.
pub const RETRY_DELAY_MS: u64 = 1000;

/// The directory with an entry for each interface.
pub const INTERFACES_DIR: &'static str = "/sys/class/net";

/// The routing table.
pub const ROUTES_FILE: &'static str = "/proc/net/route";

/// The loopback interface.
pub const LOOPBACK: &'static str = "lo";

/// The state of an interface says that it is up.
pub open spec fn is_up(state: Seq<char>) -> bool {
    text::trim(state, CharSet::WhiteSpace) == "up"@
}

/// A line of the routing table (interface, destination, gateway, ...) is about this
/// interface: it begins with the interface's name, all of it, so that nothing or white
/// space comes next.
pub open spec fn is_route_of(line: Seq<char>, interface: Seq<char>) -> bool {
    &&& interface.is_prefix_of(line)
    &&& line.len() == interface.len() || text::white_space(line[interface.len() as int])
}

/// Some line of the routing table is about this interface.
pub open spec fn has_route(routes: Seq<char>, interface: Seq<char>) -> bool {
    exists|i: int|
        0 <= i < text::lines(routes).len() && is_route_of(
            #[trigger] text::lines(routes)[i],
            interface,
        )
}

/// The file with the state of an interface.
pub open spec fn operstate_path(interface: Seq<char>) -> Seq<char> {
    "/sys/class/net/"@ + interface + "/operstate"@
}

/// The first interface that is not the loopback, and those after it.
pub open spec fn first_candidate(interfaces: Seq<Seq<char>>) -> Option<
    (Seq<char>, Seq<Seq<char>>),
>
    decreases interfaces.len(),
{
    if interfaces.len() == 0 {
        None
    } else if interfaces[0] == LOOPBACK@ {
        first_candidate(interfaces.drop_first())
    } else {
        Some((interfaces[0], interfaces.drop_first()))
    }
}

/// How far the wait has come.
pub enum NetworkStage {
    /// The interfaces are being listed.
    Listing,
    /// The state of an interface is being read.
    Operstate {
        /// The interface.
        interface: String,
        /// The interfaces after it.
        rest: Vec<String>,
    },
    /// The interface is up; the routing table is being read.
    Routes {
        /// The interface.
        interface: String,
        /// The interfaces after it.
        rest: Vec<String>,
    },
    /// No interface was ready; the next look is after a pause.
    Sleeping,
    /// An interface is ready.
    Ready,
    /// No interface was ready at the last look.
    Unreachable,
}

/// The contents of a [`NetworkStage`].
pub enum NetworkStageView {
    /// The interfaces are being listed.
    Listing,
    /// The state of an interface is being read.
    Operstate {
        /// The interface.
        interface: Seq<char>,
        /// The interfaces after it.
        rest: Seq<Seq<char>>,
    },
    /// The interface is up; the routing table is being read.
    Routes {
        /// The interface.
        interface: Seq<char>,
        /// The interfaces after it.
        rest: Seq<Seq<char>>,
    },
    /// No interface was ready; the next look is after a pause.
    Sleeping,
    /// An interface is ready.
    Ready,
    /// No interface was ready at the last look.
    Unreachable,
}

impl View for NetworkStage {
    type V = NetworkStageView;

    open spec fn view(&self) -> NetworkStageView {
        match *self {
            NetworkStage::Listing => NetworkStageView::Listing,
            NetworkStage::Operstate { interface, rest } => NetworkStageView::Operstate {
                interface: interface@,
                rest: text::strings(rest@),
            },
            NetworkStage::Routes { interface, rest } => NetworkStageView::Routes {
                interface: interface@,
                rest: text::strings(rest@),
            },
            NetworkStage::Sleeping => NetworkStageView::Sleeping,
            NetworkStage::Ready => NetworkStageView::Ready,
            NetworkStage::Unreachable => NetworkStageView::Unreachable,
        }
    }
}

/// What the caller is to do next.
pub enum NetworkAction {
    /// List the names in this directory.
    ListDir(String),
    /// Read this file.
    ReadFile(String),
    /// Sleep for so many milliseconds.
    Sleep(u64),
    /// Nothing.
    Done,
}

/// The contents of a [`NetworkAction`].
pub enum NetworkActionView {
    /// List the names in this directory.
    ListDir(Seq<char>),
    /// Read this file.
    ReadFile(Seq<char>),
    /// Sleep for so many milliseconds.
    Sleep(nat),
    /// Nothing.
    Done,
}

impl View for NetworkAction {
    type V = NetworkActionView;

    open spec fn view(&self) -> NetworkActionView {
        match *self {
            NetworkAction::ListDir(path) => NetworkActionView::ListDir(path@),
            NetworkAction::ReadFile(path) => NetworkActionView::ReadFile(path@),
            NetworkAction::Sleep(ms) => NetworkActionView::Sleep(ms as nat),
            NetworkAction::Done => NetworkActionView::Done,
        }
    }
}

/// What came of an action.
pub enum NetworkReply {
    /// The names in the directory, or nothing if it could not be read.
    Names(Option<Vec<String>>),
    /// The contents of the file, or nothing if it could not be read.
    Contents(Option<String>),
    /// The pause is over.
    Slept,
}

/// The contents of a [`NetworkReply`].
pub enum NetworkReplyView {
    /// The names in the directory.
    Names(Option<Seq<Seq<char>>>),
    /// The contents of the file.
    Contents(Option<Seq<char>>),
    /// The pause is over.
    Slept,
}

impl View for NetworkReply {
    type V = NetworkReplyView;

    open spec fn view(&self) -> NetworkReplyView {
        match *self {
            NetworkReply::Names(Some(names)) => NetworkReplyView::Names(
                Some(text::strings(names@)),
            ),
            NetworkReply::Names(None) => NetworkReplyView::Names(None),
            NetworkReply::Contents(Some(contents)) => NetworkReplyView::Contents(Some(contents@)),
            NetworkReply::Contents(None) => NetworkReplyView::Contents(None),
            NetworkReply::Slept => NetworkReplyView::Slept,
        }
    }
}

/// A wait for the network.
pub struct NetworkWait {
    /// The number of the look under way, from one.
    pub attempt: u32,
    /// How far it has come.
    pub stage: NetworkStage,
}

/// The contents of a [`NetworkWait`].
pub struct NetworkWaitView {
    /// The number of the look under way, from one.
    pub attempt: nat,
    /// How far it has come.
    pub stage: NetworkStageView,
}

impl View for NetworkWait {
    type V = NetworkWaitView;

    open spec fn view(&self) -> NetworkWaitView {
        NetworkWaitView { attempt: self.attempt as nat, stage: self.stage@ }
    }
}

impl NetworkWaitView {
    /// The same look, further on.
    pub open spec fn at(self, stage: NetworkStageView) -> Self {
        NetworkWaitView { stage, ..self }
    }

    /// Before the first look.
    pub open spec fn start() -> Self {
        NetworkWaitView { attempt: 1, stage: NetworkStageView::Listing }
    }

    /// The look goes on with these interfaces. Without a candidate among them it is over:
    /// the next one is after a pause, or there is no next one.
    pub open spec fn look_at(self, interfaces: Seq<Seq<char>>) -> Self {
        match first_candidate(interfaces) {
            Some((interface, rest)) => self.at(NetworkStageView::Operstate { interface, rest }),
            None => if self.attempt < MAX_RETRIES {
                self.at(NetworkStageView::Sleeping)
            } else {
                self.at(NetworkStageView::Unreachable)
            },
        }
    }

    /// What is to be done next.
    pub open spec fn action(self) -> NetworkActionView {
        match self.stage {
            NetworkStageView::Listing => NetworkActionView::ListDir(INTERFACES_DIR@),
            NetworkStageView::Operstate { interface, .. } => NetworkActionView::ReadFile(
                operstate_path(interface),
            ),
            NetworkStageView::Routes { .. } => NetworkActionView::ReadFile(ROUTES_FILE@),
            NetworkStageView::Sleeping => NetworkActionView::Sleep(RETRY_DELAY_MS as nat),
            _ => NetworkActionView::Done,
        }
    }

    /// After a reply. One that does not answer what was asked changes nothing.
    pub open spec fn after(self, reply: NetworkReplyView) -> Self {
        match (self.stage, reply) {
            (NetworkStageView::Listing, NetworkReplyView::Names(names)) => self.look_at(
                match names {
                    Some(names) => names,
                    None => Seq::empty(),
                },
            ),
            (
                NetworkStageView::Operstate { interface, rest },
                NetworkReplyView::Contents(contents),
            ) => if contents is Some && is_up(contents->0) {
                self.at(NetworkStageView::Routes { interface, rest })
            } else {
                self.look_at(rest)
            },
            (
                NetworkStageView::Routes { interface, rest },
                NetworkReplyView::Contents(contents),
            ) => if contents is Some && has_route(contents->0, interface) {
                self.at(NetworkStageView::Ready)
            } else {
                self.look_at(rest)
            },
            (NetworkStageView::Sleeping, NetworkReplyView::Slept) => if self.attempt
                < MAX_RETRIES {
                NetworkWaitView { attempt: self.attempt + 1, stage: NetworkStageView::Listing }
            } else {
                self.at(NetworkStageView::Unreachable)
            },
            _ => self,
        }
    }

    /// What the wait came to, once it is over.
    pub open spec fn result(self) -> Option<Result<(), NetworkDeviceErrorView>> {
        match self.stage {
            NetworkStageView::Ready => Some(Ok(())),
            NetworkStageView::Unreachable => Some(
                Err(
                    NetworkDeviceErrorView::NetworkUnreachable {
                        addr: "system network"@,
                        attempts: MAX_RETRIES as nat,
                    },
                ),
            ),
            _ => None,
        }
    }
}

/// Tells whether a line of the routing table is about the interface.
fn line_is_route_of(line: &str, interface: &str) -> (r: bool)
    ensures
        r == is_route_of(line@, interface@),
{
    if !begins_with(line, interface) {
        return false;
    }
    let n: usize = interface.unicode_len();
    line.unicode_len() == n || CharSet::WhiteSpace.contains(line.get_char(n))
}

/// Tells whether some line of the routing table is about the interface.
pub fn route_exists(routes: &str, interface: &str) -> (r: bool)
    ensures
        r == has_route(routes@, interface@),
{
    let lines = lines_of(routes);
    let ghost all = text::lines(routes@);
    let n: usize = lines.len();
    let mut i: usize = 0;
    while i < n
        invariant
            i <= n,
            n == lines@.len(),
            all == text::lines(routes@),
            all == text::texts(lines@),
            forall|k: int| 0 <= k < i ==> !is_route_of(#[trigger] all[k], interface@),
        decreases n - i,
    {
        assert(all[i as int] == lines@[i as int]@);
        if line_is_route_of(lines[i], interface) {
            return true;
        }
        i = i + 1;
    }
    false
}

/// Tells whether the state of an interface says that it is up.
pub fn state_is_up(state: &str) -> (r: bool)
    ensures
        r == is_up(state@),
{
    same_text(trimmed(state, CharSet::WhiteSpace), "up")
}

/// Starts to wait for the network.
pub fn wait_for_system_network_ready() -> (r: NetworkWait)
    ensures
        r@ == NetworkWaitView::start(),
{
    NetworkWait { attempt: 1, stage: NetworkStage::Listing }
}

impl NetworkWait {
    fn look_at(attempt: u32, interfaces: Vec<String>) -> (r: NetworkWait)
        ensures
            ({
                let fresh = NetworkWaitView {
                    attempt: attempt as nat,
                    stage: NetworkStageView::Listing,
                };
                r@ == fresh.look_at(text::strings(interfaces@))
            }),
    {
        let mut rest = interfaces;
        while rest.len() > 0
            invariant
                first_candidate(text::strings(rest@)) == first_candidate(
                    text::strings(interfaces@),
                ),
            decreases rest@.len(),
        {
            let ghost before = text::strings(rest@);
            let interface = rest.remove(0);
            assert(text::strings(rest@) =~= before.drop_first());
            assert(before[0] == interface@);
            if !same_text(interface.as_str(), LOOPBACK) {
                return NetworkWait { attempt, stage: NetworkStage::Operstate { interface, rest } };
            }
        }
        if attempt < MAX_RETRIES {
            NetworkWait { attempt, stage: NetworkStage::Sleeping }
        } else {
            NetworkWait { attempt, stage: NetworkStage::Unreachable }
        }
    }

    /// What is to be done next.
    pub fn action(&self) -> (r: NetworkAction)
        ensures
            r@ == self@.action(),
    {
        match &self.stage {
            NetworkStage::Listing => NetworkAction::ListDir(INTERFACES_DIR.to_owned()),
            NetworkStage::Operstate { interface, .. } => NetworkAction::ReadFile(
                "/sys/class/net/".to_owned().concat(interface.as_str()).concat("/operstate"),
            ),
            NetworkStage::Routes { .. } => NetworkAction::ReadFile(ROUTES_FILE.to_owned()),
            NetworkStage::Sleeping => NetworkAction::Sleep(RETRY_DELAY_MS),
            _ => NetworkAction::Done,
        }
    }

    /// Takes in the reply to what was asked. Another reply changes nothing.
    pub fn after(self, reply: NetworkReply) -> (r: NetworkWait)
        ensures
            r@ == self@.after(reply@),
    {
        let NetworkWait { attempt, stage } = self;
        match (stage, reply) {
            (NetworkStage::Listing, NetworkReply::Names(Some(names))) => {
                Self::look_at(attempt, names)
            },
            (NetworkStage::Listing, NetworkReply::Names(None)) => {
                let none: Vec<String> = Vec::new();
                assert(text::strings(none@) =~= Seq::empty());
                Self::look_at(attempt, none)
            },
            (NetworkStage::Operstate { interface, rest }, NetworkReply::Contents(contents)) => {
                let up = match &contents {
                    Some(state) => state_is_up(state.as_str()),
                    None => false,
                };
                if up {
                    NetworkWait { attempt, stage: NetworkStage::Routes { interface, rest } }
                } else {
                    Self::look_at(attempt, rest)
                }
            },
            (NetworkStage::Routes { interface, rest }, NetworkReply::Contents(contents)) => {
                let found = match &contents {
                    Some(routes) => route_exists(routes.as_str(), interface.as_str()),
                    None => false,
                };
                if found {
                    NetworkWait { attempt, stage: NetworkStage::Ready }
                } else {
                    Self::look_at(attempt, rest)
                }
            },
            (NetworkStage::Sleeping, NetworkReply::Slept) => {
                if attempt < MAX_RETRIES {
                    NetworkWait { attempt: attempt + 1, stage: NetworkStage::Listing }
                } else {
                    NetworkWait { attempt, stage: NetworkStage::Unreachable }
                }
            },
            (stage, _) => NetworkWait { attempt, stage },
        }
    }

    /// What the wait came to, once it is over.
    pub fn result(&self) -> (r: Option<Result<(), NetworkDeviceError>>)
        ensures
            match r {
                None => self@.result() is None,
                Some(Ok(())) => self@.result() == Some(Ok::<(), NetworkDeviceErrorView>(())),
                Some(Err(e)) => self@.result() == Some(Err::<(), NetworkDeviceErrorView>(e@)),
            },
    {
        match self.stage {
            NetworkStage::Ready => Some(Ok(())),
            NetworkStage::Unreachable => Some(
                Err(
                    NetworkDeviceError::NetworkUnreachable {
                        addr: "system network".to_owned(),
                        attempts: MAX_RETRIES,
                    },
                ),
            ),
            _ => None,
        }
    }
}

impl NetworkWaitView {
    /// The stage fits the number of the look: there is no look after the last one, and
    /// the network is given up only then. The interface under consideration is not the
    /// loopback.
    pub open spec fn is_consistent(self) -> bool {
        &&& 1 <= self.attempt <= MAX_RETRIES
        &&& self.stage is Sleeping ==> self.attempt < MAX_RETRIES
        &&& self.stage is Unreachable ==> self.attempt == MAX_RETRIES
        &&& self.stage matches NetworkStageView::Operstate { interface, .. } ==> interface
            != LOOPBACK@
        &&& self.stage matches NetworkStageView::Routes { interface, .. } ==> interface
            != LOOPBACK@
    }

    /// The wait is over.
    pub open spec fn is_finished(self) -> bool {
        self.stage is Ready || self.stage is Unreachable
    }

    /// The reply answers what was asked.
    pub open spec fn is_answered_by(self, reply: NetworkReplyView) -> bool {
        match self.action() {
            NetworkActionView::ListDir(_) => reply is Names,
            NetworkActionView::ReadFile(_) => reply is Contents,
            NetworkActionView::Sleep(_) => reply is Slept,
            NetworkActionView::Done => false,
        }
    }

    /// How far the look is from its end.
    pub open spec fn distance(self) -> nat {
        match self.stage {
            NetworkStageView::Listing => 0,
            NetworkStageView::Operstate { rest, .. } => 2 * rest.len() + 3,
            NetworkStageView::Routes { rest, .. } => 2 * rest.len() + 2,
            NetworkStageView::Sleeping => 1,
            _ => 0,
        }
    }

    /// `later` is closer to the end of the wait: it is over, or a later look, or this
    /// look has come further.
    pub open spec fn is_before(self, later: Self) -> bool {
        ||| later.is_finished()
        ||| later.attempt > self.attempt
        ||| later.attempt == self.attempt && self.stage is Listing && !(later.stage is Listing)
        ||| later.attempt == self.attempt && !(self.stage is Listing) && !(later.stage is Listing)
            && later.distance() < self.distance()
    }
}

proof fn lemma_first_candidate(interfaces: Seq<Seq<char>>)
    ensures
        first_candidate(interfaces) matches Some((interface, rest)) ==> interface != LOOPBACK@
            && rest.len() < interfaces.len() && interfaces.contains(interface),
    decreases interfaces.len(),
{
    if interfaces.len() > 0 {
        if interfaces[0] == LOOPBACK@ {
            lemma_first_candidate(interfaces.drop_first());
            if let Some((interface, _)) = first_candidate(interfaces.drop_first()) {
                let i = choose|i: int|
                    0 <= i < interfaces.drop_first().len() && interfaces.drop_first()[i]
                        == interface;
                assert(interfaces[i + 1] == interface);
            }
        } else {
            assert(interfaces.contains(interfaces[0]));
        }
    }
}

/// Every wait starts out consistent and stays so: there are sixty looks at most. The next
/// look comes only after a pause, and there is no pause after the last.
pub proof fn law_wait_stays_consistent(wait: NetworkWaitView, reply: NetworkReplyView)
    requires
        wait.is_consistent(),
    ensures
        NetworkWaitView::start().is_consistent(),
        wait.after(reply).is_consistent(),
        wait.after(reply).attempt != wait.attempt ==> wait.stage is Sleeping && reply is Slept
            && wait.after(reply).attempt == wait.attempt + 1,
        wait.stage is Sleeping && reply is Slept ==> wait.after(reply).attempt == wait.attempt + 1,
        wait.action() is Sleep ==> wait.attempt < MAX_RETRIES,
{
    match (wait.stage, reply) {
        (NetworkStageView::Listing, NetworkReplyView::Names(Some(names))) => {
            lemma_first_candidate(names)
        },
        (NetworkStageView::Operstate { rest, .. }, _) => lemma_first_candidate(rest),
        (NetworkStageView::Routes { rest, .. }, _) => lemma_first_candidate(rest),
        _ => {},
    }
}

/// Every reply to what was asked brings a wait closer to its end.
pub proof fn law_wait_ends(wait: NetworkWaitView, reply: NetworkReplyView)
    requires
        wait.is_consistent(),
        wait.is_answered_by(reply),
    ensures
        wait.is_before(wait.after(reply)),
{
    match wait.stage {
        NetworkStageView::Operstate { rest, .. } => lemma_first_candidate(rest),
        NetworkStageView::Routes { rest, .. } => lemma_first_candidate(rest),
        _ => {},
    }
}

/// The network counts as ready only on evidence: an interface other than the loopback
/// whose state, read just before, said that it is up, and a route for it.
pub proof fn law_ready_means_up_with_a_route(wait: NetworkWaitView, reply: NetworkReplyView)
    requires
        wait.is_consistent(),
        !wait.is_finished(),
    ensures
        wait.after(reply).stage is Ready ==> (wait.stage matches NetworkStageView::Routes {
            interface,
            ..
        } && interface != LOOPBACK@ && (reply matches NetworkReplyView::Contents(Some(routes))
            && has_route(routes, interface))),
        wait.after(reply).stage matches NetworkStageView::Routes { interface, .. } ==> wait.after(
            reply,
        ) == wait || (wait.stage matches NetworkStageView::Operstate { interface: same, .. } && same
            == interface && (reply matches NetworkReplyView::Contents(Some(state)) && is_up(
            state,
        ))),
{
}

/// What the system answers, at each look, to what it is asked for.
pub struct NetworkWorld {
    /// The names in a directory.
    pub names: spec_fn(nat, Seq<char>) -> Option<Seq<Seq<char>>>,
    /// The contents of a file that is read for the state of an interface.
    pub state: spec_fn(nat, Seq<char>) -> Option<Seq<char>>,
    /// The contents of a file that is read for the routes of an interface.
    pub routes: spec_fn(nat, Seq<char>, Seq<char>) -> Option<Seq<char>>,
}

impl NetworkWorld {
    /// The reply to what `wait` asks for.
    pub open spec fn reply(self, wait: NetworkWaitView) -> NetworkReplyView {
        match wait.stage {
            NetworkStageView::Listing => NetworkReplyView::Names(
                (self.names)(wait.attempt, wait.action()->ListDir_0),
            ),
            NetworkStageView::Operstate { .. } => NetworkReplyView::Contents(
                (self.state)(wait.attempt, wait.action()->ReadFile_0),
            ),
            NetworkStageView::Routes { interface, .. } => NetworkReplyView::Contents(
                (self.routes)(wait.attempt, wait.action()->ReadFile_0, interface),
            ),
            _ => NetworkReplyView::Slept,
        }
    }

    /// The routing table that is read for the interface has a route for it.
    pub open spec fn shows_route(self, attempt: nat, interface: Seq<char>) -> bool {
        (self.routes)(attempt, "/proc/net/route"@, interface) matches Some(routes) && has_route(
            routes,
            interface,
        )
    }

    /// The interface is not the loopback, it is up, and it has a route.
    pub open spec fn is_usable(self, attempt: nat, interface: Seq<char>) -> bool {
        &&& interface != LOOPBACK@
        &&& (self.state)(attempt, "/sys/class/net/"@ + interface + "/operstate"@) matches Some(state)
            && is_up(state)
        &&& self.shows_route(attempt, interface)
    }

    /// One of the interfaces is usable.
    pub open spec fn one_is_usable(self, attempt: nat, interfaces: Seq<Seq<char>>) -> bool {
        exists|i: int|
            0 <= i < interfaces.len() && self.is_usable(attempt, #[trigger] interfaces[i])
    }

    /// The look with this number finds a usable interface.
    pub open spec fn is_ready(self, attempt: nat) -> bool {
        (self.names)(attempt, "/sys/class/net"@) matches Some(names) && self.one_is_usable(
            attempt,
            names,
        )
    }

    /// Some look from this one on finds a usable interface.
    pub open spec fn is_ready_from(self, attempt: nat) -> bool {
        exists|k: nat| attempt <= k <= MAX_RETRIES && #[trigger] self.is_ready(k)
    }
}

/// The wait at its end.
pub open spec fn run_wait(wait: NetworkWaitView, world: NetworkWorld) -> NetworkWaitView
    decreases
            MAX_RETRIES - wait.attempt,
            if wait.stage is Listing {
                1nat
            } else {
                0nat
            },
            wait.distance(),
    when wait.is_consistent()
{
    if wait.is_finished() {
        wait
    } else {
        proof {
            law_wait_stays_consistent(wait, world.reply(wait));
            law_wait_ends(wait, world.reply(wait));
        }
        run_wait(wait.after(world.reply(wait)), world)
    }
}

/// The wait, from here on, comes to a usable interface.
spec fn has_hope(wait: NetworkWaitView, world: NetworkWorld) -> bool {
    let later = world.is_ready_from(wait.attempt + 1);
    match wait.stage {
        NetworkStageView::Listing => world.is_ready_from(wait.attempt),
        NetworkStageView::Operstate { interface, rest } => world.is_usable(wait.attempt, interface)
            || world.one_is_usable(wait.attempt, rest) || later,
        NetworkStageView::Routes { interface, rest } => world.shows_route(wait.attempt, interface)
            || world.one_is_usable(wait.attempt, rest) || later,
        NetworkStageView::Sleeping => later,
        NetworkStageView::Ready => true,
        NetworkStageView::Unreachable => false,
    }
}

/// The number of the first look, from this one on, that finds a usable interface, or of
/// the last look where none does.
pub open spec fn first_ready_from(world: NetworkWorld, attempt: nat) -> nat
    decreases MAX_RETRIES - attempt,
{
    if attempt >= MAX_RETRIES || world.is_ready(attempt) {
        attempt
    } else {
        first_ready_from(world, attempt + 1)
    }
}

/// The number of the look at which the wait, from here on, ends.
spec fn last_look(wait: NetworkWaitView, world: NetworkWorld) -> nat {
    let later = if wait.attempt < MAX_RETRIES {
        first_ready_from(world, wait.attempt + 1)
    } else {
        wait.attempt
    };
    let now = match wait.stage {
        NetworkStageView::Listing => world.is_ready(wait.attempt),
        NetworkStageView::Operstate { interface, rest } => world.is_usable(wait.attempt, interface)
            || world.one_is_usable(wait.attempt, rest),
        NetworkStageView::Routes { interface, rest } => world.shows_route(wait.attempt, interface)
            || world.one_is_usable(wait.attempt, rest),
        NetworkStageView::Sleeping => false,
        NetworkStageView::Ready => true,
        NetworkStageView::Unreachable => true,
    };
    if now {
        wait.attempt
    } else {
        later
    }
}

proof fn lemma_candidates(attempt: nat, interfaces: Seq<Seq<char>>, world: NetworkWorld)
    ensures
        world.one_is_usable(attempt, interfaces) == (match first_candidate(interfaces) {
            Some((interface, rest)) => world.is_usable(attempt, interface) || world.one_is_usable(
                attempt,
                rest,
            ),
            None => false,
        }),
    decreases interfaces.len(),
{
    if interfaces.len() > 0 {
        let rest = interfaces.drop_first();
        assert(world.one_is_usable(attempt, interfaces) == (world.is_usable(attempt, interfaces[0])
            || world.one_is_usable(attempt, rest))) by {
            if world.one_is_usable(attempt, interfaces) {
                let i = choose|i: int|
                    0 <= i < interfaces.len() && world.is_usable(attempt, #[trigger] interfaces[i]);
                if i > 0 {
                    assert(rest[i - 1] == interfaces[i]);
                }
            }
            if world.one_is_usable(attempt, rest) {
                let i = choose|i: int|
                    0 <= i < rest.len() && world.is_usable(attempt, #[trigger] rest[i]);
                assert(interfaces[i + 1] == rest[i]);
            }
        }
        if interfaces[0] == LOOPBACK@ {
            lemma_candidates(attempt, rest, world);
        }
    }
}

proof fn lemma_look_has_hope(
    wait: NetworkWaitView,
    interfaces: Seq<Seq<char>>,
    world: NetworkWorld,
)
    requires
        1 <= wait.attempt <= MAX_RETRIES,
    ensures
        has_hope(wait.look_at(interfaces), world) == (world.one_is_usable(wait.attempt, interfaces)
            || world.is_ready_from(wait.attempt + 1)),
        last_look(wait.look_at(interfaces), world) == if world.one_is_usable(
            wait.attempt,
            interfaces,
        ) || wait.attempt >= MAX_RETRIES {
            wait.attempt
        } else {
            first_ready_from(world, wait.attempt + 1)
        },
{
    lemma_candidates(wait.attempt, interfaces, world);
}

proof fn lemma_hope_is_kept(wait: NetworkWaitView, world: NetworkWorld)
    requires
        wait.is_consistent(),
        !wait.is_finished(),
    ensures
        has_hope(wait.after(world.reply(wait)), world) == has_hope(wait, world),
        last_look(wait.after(world.reply(wait)), world) == last_look(wait, world),
{
    match wait.stage {
        NetworkStageView::Listing => {
            let names = match (world.names)(wait.attempt, "/sys/class/net"@) {
                Some(names) => names,
                None => Seq::empty(),
            };
            lemma_look_has_hope(wait, names, world);
            assert(world.one_is_usable(wait.attempt, names) == world.is_ready(wait.attempt));
            assert(world.is_ready_from(wait.attempt) == (world.is_ready(wait.attempt)
                || world.is_ready_from(wait.attempt + 1))) by {
                if world.is_ready_from(wait.attempt) {
                    let k = choose|k: nat|
                        wait.attempt <= k <= MAX_RETRIES && #[trigger] world.is_ready(k);
                    assert(k == wait.attempt || wait.attempt + 1 <= k);
                }
            }
        },
        NetworkStageView::Operstate { interface, rest } => {
            lemma_look_has_hope(wait, rest, world);
        },
        NetworkStageView::Routes { interface, rest } => {
            lemma_look_has_hope(wait, rest, world);
        },
        _ => {},
    }
}

proof fn lemma_run_wait(wait: NetworkWaitView, world: NetworkWorld)
    requires
        wait.is_consistent(),
    ensures
        run_wait(wait, world).is_consistent(),
        run_wait(wait, world).is_finished(),
        run_wait(wait, world).stage is Ready == has_hope(wait, world),
        run_wait(wait, world).attempt == last_look(wait, world),
    decreases
            MAX_RETRIES - wait.attempt,
            if wait.stage is Listing {
                1nat
            } else {
                0nat
            },
            wait.distance(),
{
    if !wait.is_finished() {
        law_wait_stays_consistent(wait, world.reply(wait));
        law_wait_ends(wait, world.reply(wait));
        lemma_hope_is_kept(wait, world);
        lemma_run_wait(wait.after(world.reply(wait)), world);
    }
}

proof fn lemma_first_ready(world: NetworkWorld, attempt: nat)
    requires
        attempt <= MAX_RETRIES,
    ensures
        attempt <= first_ready_from(world, attempt) <= MAX_RETRIES,
        forall|j: nat|
            attempt <= j < first_ready_from(world, attempt) ==> !#[trigger] world.is_ready(j),
        world.is_ready_from(attempt) ==> world.is_ready(first_ready_from(world, attempt)),
    decreases MAX_RETRIES - attempt,
{
    if attempt < MAX_RETRIES && !world.is_ready(attempt) {
        lemma_first_ready(world, attempt + 1);
        if world.is_ready_from(attempt) {
            let k = choose|k: nat| attempt <= k <= MAX_RETRIES && #[trigger] world.is_ready(k);
            assert(attempt + 1 <= k);
        }
    }
}

proof fn lemma_first_ready_is(world: NetworkWorld, attempt: nat, k: nat)
    requires
        attempt <= k <= MAX_RETRIES,
        world.is_ready(k),
        forall|j: nat| attempt <= j < k ==> !#[trigger] world.is_ready(j),
    ensures
        first_ready_from(world, attempt) == k,
    decreases k - attempt,
{
    if attempt < k {
        assert(!world.is_ready(attempt));
        lemma_first_ready_is(world, attempt + 1, k);
    }
}

/// A wait that succeeds ends at the first look that finds some interface other than the
/// loopback up and with a route.
pub proof fn law_wait_ends_at_the_first_ready_look(world: NetworkWorld, k: nat)
    requires
        1 <= k <= MAX_RETRIES,
        world.is_ready(k),
        forall|j: nat| 1 <= j < k ==> !#[trigger] world.is_ready(j),
    ensures
        run_wait(NetworkWaitView::start(), world).stage is Ready,
        run_wait(NetworkWaitView::start(), world).attempt == k,
{
    lemma_run_wait(NetworkWaitView::start(), world);
    lemma_first_ready_is(world, 1, k);
}

/// What a wait comes to, whatever the system answers: it succeeds if and only if at one
/// of the sixty looks some interface other than the loopback is up and has a route, and
/// then it ends at the first such look. Otherwise the network is unreachable after sixty
/// looks.
pub proof fn law_wait_result(world: NetworkWorld)
    ensures
        ({
            let end = run_wait(NetworkWaitView::start(), world);
            if world.is_ready_from(1) {
                &&& end.result() == Some(Ok::<(), NetworkDeviceErrorView>(()))
                &&& world.is_ready(end.attempt)
                &&& forall|j: nat| 1 <= j < end.attempt ==> !#[trigger] world.is_ready(j)
            } else {
                &&& end.attempt == MAX_RETRIES
                &&& end.result() == Some(
                    Err::<(), NetworkDeviceErrorView>(
                        NetworkDeviceErrorView::NetworkUnreachable {
                            addr: "system network"@,
                            attempts: 60,
                        },
                    ),
                )
            }
        }),
{
    lemma_run_wait(NetworkWaitView::start(), world);
    lemma_first_ready(world, 1);
}

} // verus!
