//! The configuration store: the parameters that every outbound request
//! carries. There is one store per process, passed by reference to whoever
//! needs it; readers take snapshots, and only the setters change it.

use vstd::prelude::*;
use crate::error::AuthError;
use crate::error::ErrorKind;
use crate::error::ErrorView;
use crate::model::result_view;
use crate::text::owned;
use crate::text::same_text;

verus! {

/// The platform identifier of a fresh store.
pub const DEFAULT_PLATFORM: &'static str = "Unity";

/// The name of the stable build channel.
pub const STABLE: &'static str = "stable";

/// The name of the testing build channel.
pub const TESTING: &'static str = "testing";

/// What a caller is told who names a build channel that does not exist.
pub const UNKNOWN_BUILD: &'static str = "Unknown build channel.";

/// A build channel of the game.
#[derive(Clone, Copy, Debug, PartialEq, Eq, Structural)]
pub enum Build {
    Stable,
    Testing,
}

impl Build {
    /// The name of a channel.
    pub open spec fn name_of(self) -> Seq<char> {
        match self {
            Build::Stable => STABLE@,
            Build::Testing => TESTING@,
        }
    }

    /// The channel that a name stands for.
    pub open spec fn named(name: Seq<char>) -> Option<Build> {
        if name == STABLE@ {
            Some(Build::Stable)
        } else if name == TESTING@ {
            Some(Build::Testing)
        } else {
            None
        }
    }

    pub fn name(self) -> (name: &'static str)
        ensures
            name@ == self.name_of(),
    {
        match self {
            Build::Stable => STABLE,
            Build::Testing => TESTING,
        }
    }

    /// Reads a channel name. Names are matched exactly.
    pub fn parse(name: &str) -> (build: Option<Build>)
        ensures
            build == Build::named(name@),
    {
        if same_text(name, STABLE) {
            Some(Build::Stable)
        } else if same_text(name, TESTING) {
            Some(Build::Testing)
        } else {
            None
        }
    }
}

/// Each channel is read back from its own name.
pub proof fn lemma_build_name_round_trip(build: Build)
    ensures
        Build::named(build.name_of()) == Some(build),
{
    reveal_strlit("stable");
    reveal_strlit("testing");
    assert(STABLE@.len() != TESTING@.len());
}

/// The parameters at one moment: what a reader of the store sees.
#[derive(PartialEq, Eq, Debug)]
pub struct Params {
    platform: String,
    build: Build,
    steamid: String,
}

/// The model of [`Params`] and of the [`ConfigStore`] that holds them.
pub struct ParamsView {
    /// The platform identifier.
    pub platform: Seq<char>,
    /// The build channel.
    pub build: Build,
    /// The identifier of this install, opaque to the core.
    pub steamid: Seq<char>,
}

impl View for Params {
    type V = ParamsView;

    closed spec fn view(&self) -> ParamsView {
        ParamsView { platform: self.platform@, build: self.build, steamid: self.steamid@ }
    }
}

impl Clone for Params {
    fn clone(&self) -> (copy: Params)
        ensures
            copy@ == self@,
    {
        Params { platform: self.platform.clone(), build: self.build, steamid: self.steamid.clone() }
    }
}

impl Params {
    pub fn platform(&self) -> (platform: &str)
        ensures
            platform@ == self@.platform,
    {
        self.platform.as_str()
    }

    pub fn build(&self) -> (build: Build)
        ensures
            build == self@.build,
    {
        self.build
    }

    pub fn steamid(&self) -> (steamid: &str)
        ensures
            steamid@ == self@.steamid,
    {
        self.steamid.as_str()
    }
}

/// One change to the store.
pub enum Write {
    Platform(Seq<char>),
    Build(Build),
    SteamId(Seq<char>),
}

/// The parameters of a fresh store: platform `Unity`, the stable channel, no
/// install identifier.
pub open spec fn defaults() -> ParamsView {
    ParamsView { platform: DEFAULT_PLATFORM@, build: Build::Stable, steamid: Seq::empty() }
}

/// The parameters after one write: the written parameter has its new value,
/// the other two are what they were.
pub open spec fn written(params: ParamsView, write: Write) -> ParamsView {
    match write {
        Write::Platform(platform) => ParamsView { platform, ..params },
        Write::Build(build) => ParamsView { build, ..params },
        Write::SteamId(steamid) => ParamsView { steamid, ..params },
    }
}

/// The parameters after a series of writes, in order.
pub open spec fn written_all(params: ParamsView, writes: Seq<Write>) -> ParamsView
    decreases writes.len(),
{
    if writes.len() == 0 {
        params
    } else {
        written(written_all(params, writes.drop_last()), writes.last())
    }
}

/// What `set_build_named` leaves in the store: the named channel, or, where
/// the name stands for none, what was there.
pub open spec fn build_named(params: ParamsView, name: Seq<char>) -> ParamsView {
    match Build::named(name) {
        Some(build) => written(params, Write::Build(build)),
        None => params,
    }
}

/// What `set_build_named` returns: the error that the channel is unknown
/// where the name stands for none.
pub open spec fn build_named_outcome(name: Seq<char>) -> Result<(), ErrorView> {
    match Build::named(name) {
        Some(_) => Ok(()),
        None => Err(ErrorView { kind: ErrorKind::Unclassified, message: UNKNOWN_BUILD@ }),
    }
}

/// The store. Its parameters change only through the setters, each of which
/// takes the store exclusively and is complete when it returns.
pub struct ConfigStore {
    params: Params,
}

impl View for ConfigStore {
    type V = ParamsView;

    closed spec fn view(&self) -> ParamsView {
        self.params@
    }
}

impl ConfigStore {
    /// A store with the default parameters.
    pub fn new() -> (store: ConfigStore)
        ensures
            store@ == defaults(),
    {
        ConfigStore {
            params: Params {
                platform: owned(DEFAULT_PLATFORM),
                build: Build::Stable,
                steamid: String::new(),
            },
        }
    }

    /// A snapshot of the parameters as they are now. Later writes to the store
    /// do not change it.
    pub fn read(&self) -> (snapshot: Params)
        ensures
            snapshot@ == self@,
    {
        self.params.clone()
    }

    pub fn set_platform(&mut self, platform: &str)
        ensures
            final(self)@ == written(old(self)@, Write::Platform(platform@)),
    {
        self.params.platform = owned(platform);
    }

    pub fn set_build(&mut self, build: Build)
        ensures
            final(self)@ == written(old(self)@, Write::Build(build)),
    {
        self.params.build = build;
    }

    pub fn set_steamid(&mut self, steamid: &str)
        ensures
            final(self)@ == written(old(self)@, Write::SteamId(steamid@)),
    {
        self.params.steamid = owned(steamid);
    }

    /// Sets the build channel by its name. A name that stands for no channel
    /// is refused and the store stays as it was.
    pub fn set_build_named(&mut self, name: &str) -> (done: Result<(), AuthError>)
        ensures
            final(self)@ == build_named(old(self)@, name@),
            result_view(done) == build_named_outcome(name@),
    {
        match Build::parse(name) {
            Some(build) => {
                self.set_build(build);
                Ok(())
            },
            None => Err(AuthError::Unclassified(owned(UNKNOWN_BUILD))),
        }
    }
}

/// A write changes the parameter it names and no other.
pub proof fn lemma_write_is_targeted(params: ParamsView, write: Write)
    ensures
        !(write is Platform) ==> written(params, write).platform == params.platform,
        !(write is Build) ==> written(params, write).build == params.build,
        !(write is SteamId) ==> written(params, write).steamid == params.steamid,
        write matches Write::Platform(platform) ==> written(params, write).platform == platform,
        write matches Write::Build(build) ==> written(params, write).build == build,
        write matches Write::SteamId(steamid) ==> written(params, write).steamid == steamid,
{
}

/// Once a build channel is set, every later read shows it, through any
/// writes to the other parameters, until the channel is set again.
pub proof fn lemma_build_stays_until_set_again(params: ParamsView, build: Build, later: Seq<Write>)
    requires
        forall|i: int| 0 <= i < later.len() ==> !(#[trigger] later[i] is Build),
    ensures
        written_all(written(params, Write::Build(build)), later).build == build,
    decreases later.len(),
{
    if later.len() > 0 {
        let before = later.drop_last();
        assert forall|i: int| 0 <= i < before.len() implies !(#[trigger] before[i] is Build) by {
            assert(before[i] == later[i]);
        }
        lemma_build_stays_until_set_again(params, build, before);
        assert(!(later[later.len() - 1] is Build));
    }
}

} // verus!
