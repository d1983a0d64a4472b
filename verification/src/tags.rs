//! The enumerations of the protocol. Each is written as one word, its tag,
//! and a word outside the set is refused.

use crate::error::Error;
use crate::wire::{lemma_word, lemma_word_stable, parse_word, word, Encode, Parsed, Wire};
use vstd::prelude::*;

verus! {

/// How much the daemon is asked to log.
#[derive(Clone, Copy, Debug, PartialEq, Eq, Structural)]
pub enum Verbosity {
    Error,
    Warn,
    Notice,
    Info,
    Talkative,
    Chatty,
    Debug,
    Vomit,
}

impl Verbosity {
    /// The word that stands for this variant.
    pub open spec fn tag(self) -> u64 {
        match self {
            Verbosity::Error => 0,
            Verbosity::Warn => 1,
            Verbosity::Notice => 2,
            Verbosity::Info => 3,
            Verbosity::Talkative => 4,
            Verbosity::Chatty => 5,
            Verbosity::Debug => 6,
            Verbosity::Vomit => 7,
        }
    }

    /// The variant that `tag` stands for, if it stands for one.
    pub open spec fn of_tag(tag: u64) -> Option<Verbosity> {
        match tag {
            0 => Some(Verbosity::Error),
            1 => Some(Verbosity::Warn),
            2 => Some(Verbosity::Notice),
            3 => Some(Verbosity::Info),
            4 => Some(Verbosity::Talkative),
            5 => Some(Verbosity::Chatty),
            6 => Some(Verbosity::Debug),
            7 => Some(Verbosity::Vomit),
            _ => None,
        }
    }

    /// The word that stands for this variant.
    pub fn to_u64(self) -> (tag: u64)
        ensures
            tag == self.tag(),
    {
        match self {
            Verbosity::Error => 0,
            Verbosity::Warn => 1,
            Verbosity::Notice => 2,
            Verbosity::Info => 3,
            Verbosity::Talkative => 4,
            Verbosity::Chatty => 5,
            Verbosity::Debug => 6,
            Verbosity::Vomit => 7,
        }
    }

    /// The variant that `tag` stands for, if it stands for one.
    pub fn from_u64(tag: u64) -> (v: Option<Verbosity>)
        ensures
            v == Verbosity::of_tag(tag),
    {
        match tag {
            0 => Some(Verbosity::Error),
            1 => Some(Verbosity::Warn),
            2 => Some(Verbosity::Notice),
            3 => Some(Verbosity::Info),
            4 => Some(Verbosity::Talkative),
            5 => Some(Verbosity::Chatty),
            6 => Some(Verbosity::Debug),
            7 => Some(Verbosity::Vomit),
            _ => None,
        }
    }

    /// Every variant has a tag below 8 and is found again from it; no other
    /// word stands for a variant, and reading one fails with `UnknownTag`.
    pub proof fn lemma_tags_closed(v: Verbosity, tag: u64, rest: Seq<u8>)
        ensures
            v.tag() < 8,
            Verbosity::of_tag(v.tag()) == Some(v),
            Verbosity::of_tag(tag) is Some <==> tag < 8,
            tag >= 8 ==> Verbosity::parse(word(tag) + rest) == Err::<(Verbosity, nat), Error>(
                Error::UnknownTag(tag),
            ),
    {
        u64::lemma_round_trip(tag, rest);
    }
}

impl Encode for Verbosity {
    type Model = Verbosity;

    open spec fn model(&self) -> Verbosity {
        *self
    }

    open spec fn encoding(m: Verbosity) -> Seq<u8> {
        word(m.tag())
    }

    proof fn lemma_encoding_aligned(m: Verbosity) {
        lemma_word(m.tag());
    }

    fn encode(&self, out: &mut Vec<u8>) {
        self.to_u64().encode(out);
    }
}

impl Wire for Verbosity {
    open spec fn encodable(m: Verbosity) -> bool {
        true
    }

    open spec fn parse(s: Seq<u8>) -> Parsed<Verbosity> {
        match parse_word(s) {
            Err(e) => Err(e),
            Ok((tag, n)) => match Verbosity::of_tag(tag) {
                Some(v) => Ok((v, n)),
                None => Err(Error::UnknownTag(tag)),
            },
        }
    }

    proof fn lemma_parse_within(s: Seq<u8>) {
    }

    proof fn lemma_parse_stable(s: Seq<u8>, more: Seq<u8>) {
        lemma_word_stable(s, more);
    }

    proof fn lemma_round_trip(m: Verbosity, rest: Seq<u8>) {
        u64::lemma_round_trip(m.tag(), rest);
    }

    fn decode(buf: &[u8], pos: usize) -> (r: Result<(Verbosity, usize), Error>) {
        let (tag, p) = u64::decode(buf, pos)?;
        match Verbosity::from_u64(tag) {
            Some(v) => Ok((v, p)),
            None => Err(Error::UnknownTag(tag)),
        }
    }
}

/// What a build is to do with outputs that exist already.
#[derive(Clone, Copy, Debug, PartialEq, Eq, Structural)]
pub enum BuildMode {
    /// Build what is missing.
    Normal,
    /// Build again what is found to be damaged.
    Repair,
    /// Build again and compare with what is there.
    Check,
}

impl BuildMode {
    /// The word that stands for this variant.
    pub open spec fn tag(self) -> u64 {
        match self {
            BuildMode::Normal => 0,
            BuildMode::Repair => 1,
            BuildMode::Check => 2,
        }
    }

    /// The variant that `tag` stands for, if it stands for one.
    pub open spec fn of_tag(tag: u64) -> Option<BuildMode> {
        match tag {
            0 => Some(BuildMode::Normal),
            1 => Some(BuildMode::Repair),
            2 => Some(BuildMode::Check),
            _ => None,
        }
    }

    /// The word that stands for this variant.
    pub fn to_u64(self) -> (tag: u64)
        ensures
            tag == self.tag(),
    {
        match self {
            BuildMode::Normal => 0,
            BuildMode::Repair => 1,
            BuildMode::Check => 2,
        }
    }

    /// The variant that `tag` stands for, if it stands for one.
    pub fn from_u64(tag: u64) -> (v: Option<BuildMode>)
        ensures
            v == BuildMode::of_tag(tag),
    {
        match tag {
            0 => Some(BuildMode::Normal),
            1 => Some(BuildMode::Repair),
            2 => Some(BuildMode::Check),
            _ => None,
        }
    }

    /// Every variant has a tag below 3 and is found again from it; no other
    /// word stands for a variant, and reading one fails with `UnknownTag`.
    pub proof fn lemma_tags_closed(v: BuildMode, tag: u64, rest: Seq<u8>)
        ensures
            v.tag() < 3,
            BuildMode::of_tag(v.tag()) == Some(v),
            BuildMode::of_tag(tag) is Some <==> tag < 3,
            tag >= 3 ==> BuildMode::parse(word(tag) + rest) == Err::<(BuildMode, nat), Error>(
                Error::UnknownTag(tag),
            ),
    {
        u64::lemma_round_trip(tag, rest);
    }
}

impl Encode for BuildMode {
    type Model = BuildMode;

    open spec fn model(&self) -> BuildMode {
        *self
    }

    open spec fn encoding(m: BuildMode) -> Seq<u8> {
        word(m.tag())
    }

    proof fn lemma_encoding_aligned(m: BuildMode) {
        lemma_word(m.tag());
    }

    fn encode(&self, out: &mut Vec<u8>) {
        self.to_u64().encode(out);
    }
}

impl Wire for BuildMode {
    open spec fn encodable(m: BuildMode) -> bool {
        true
    }

    open spec fn parse(s: Seq<u8>) -> Parsed<BuildMode> {
        match parse_word(s) {
            Err(e) => Err(e),
            Ok((tag, n)) => match BuildMode::of_tag(tag) {
                Some(v) => Ok((v, n)),
                None => Err(Error::UnknownTag(tag)),
            },
        }
    }

    proof fn lemma_parse_within(s: Seq<u8>) {
    }

    proof fn lemma_parse_stable(s: Seq<u8>, more: Seq<u8>) {
        lemma_word_stable(s, more);
    }

    proof fn lemma_round_trip(m: BuildMode, rest: Seq<u8>) {
        u64::lemma_round_trip(m.tag(), rest);
    }

    fn decode(buf: &[u8], pos: usize) -> (r: Result<(BuildMode, usize), Error>) {
        let (tag, p) = u64::decode(buf, pos)?;
        match BuildMode::from_u64(tag) {
            Some(v) => Ok((v, p)),
            None => Err(Error::UnknownTag(tag)),
        }
    }
}

/// How a build ended.
#[derive(Clone, Copy, Debug, PartialEq, Eq, Structural)]
pub enum BuildStatus {
    Built,
    Substituted,
    AlreadyValid,
    PermanentFailure,
    InputRejected,
    OutputRejected,
    TransientFailure,
    CachedFailure,
    TimedOut,
    MiscFailure,
    DependencyFailed,
    LogLimitExceeded,
    NotDeterministic,
    ResolvesToAlreadyValid,
    NoSubstituters,
}

impl BuildStatus {
    /// The word that stands for this variant.
    pub open spec fn tag(self) -> u64 {
        match self {
            BuildStatus::Built => 0,
            BuildStatus::Substituted => 1,
            BuildStatus::AlreadyValid => 2,
            BuildStatus::PermanentFailure => 3,
            BuildStatus::InputRejected => 4,
            BuildStatus::OutputRejected => 5,
            BuildStatus::TransientFailure => 6,
            BuildStatus::CachedFailure => 7,
            BuildStatus::TimedOut => 8,
            BuildStatus::MiscFailure => 9,
            BuildStatus::DependencyFailed => 10,
            BuildStatus::LogLimitExceeded => 11,
            BuildStatus::NotDeterministic => 12,
            BuildStatus::ResolvesToAlreadyValid => 13,
            BuildStatus::NoSubstituters => 14,
        }
    }

    /// The variant that `tag` stands for, if it stands for one.
    pub open spec fn of_tag(tag: u64) -> Option<BuildStatus> {
        match tag {
            0 => Some(BuildStatus::Built),
            1 => Some(BuildStatus::Substituted),
            2 => Some(BuildStatus::AlreadyValid),
            3 => Some(BuildStatus::PermanentFailure),
            4 => Some(BuildStatus::InputRejected),
            5 => Some(BuildStatus::OutputRejected),
            6 => Some(BuildStatus::TransientFailure),
            7 => Some(BuildStatus::CachedFailure),
            8 => Some(BuildStatus::TimedOut),
            9 => Some(BuildStatus::MiscFailure),
            10 => Some(BuildStatus::DependencyFailed),
            11 => Some(BuildStatus::LogLimitExceeded),
            12 => Some(BuildStatus::NotDeterministic),
            13 => Some(BuildStatus::ResolvesToAlreadyValid),
            14 => Some(BuildStatus::NoSubstituters),
            _ => None,
        }
    }

    /// The word that stands for this variant.
    pub fn to_u64(self) -> (tag: u64)
        ensures
            tag == self.tag(),
    {
        match self {
            BuildStatus::Built => 0,
            BuildStatus::Substituted => 1,
            BuildStatus::AlreadyValid => 2,
            BuildStatus::PermanentFailure => 3,
            BuildStatus::InputRejected => 4,
            BuildStatus::OutputRejected => 5,
            BuildStatus::TransientFailure => 6,
            BuildStatus::CachedFailure => 7,
            BuildStatus::TimedOut => 8,
            BuildStatus::MiscFailure => 9,
            BuildStatus::DependencyFailed => 10,
            BuildStatus::LogLimitExceeded => 11,
            BuildStatus::NotDeterministic => 12,
            BuildStatus::ResolvesToAlreadyValid => 13,
            BuildStatus::NoSubstituters => 14,
        }
    }

    /// The variant that `tag` stands for, if it stands for one.
    pub fn from_u64(tag: u64) -> (v: Option<BuildStatus>)
        ensures
            v == BuildStatus::of_tag(tag),
    {
        match tag {
            0 => Some(BuildStatus::Built),
            1 => Some(BuildStatus::Substituted),
            2 => Some(BuildStatus::AlreadyValid),
            3 => Some(BuildStatus::PermanentFailure),
            4 => Some(BuildStatus::InputRejected),
            5 => Some(BuildStatus::OutputRejected),
            6 => Some(BuildStatus::TransientFailure),
            7 => Some(BuildStatus::CachedFailure),
            8 => Some(BuildStatus::TimedOut),
            9 => Some(BuildStatus::MiscFailure),
            10 => Some(BuildStatus::DependencyFailed),
            11 => Some(BuildStatus::LogLimitExceeded),
            12 => Some(BuildStatus::NotDeterministic),
            13 => Some(BuildStatus::ResolvesToAlreadyValid),
            14 => Some(BuildStatus::NoSubstituters),
            _ => None,
        }
    }

    /// Every variant has a tag below 15 and is found again from it; no other
    /// word stands for a variant, and reading one fails with `UnknownTag`.
    pub proof fn lemma_tags_closed(v: BuildStatus, tag: u64, rest: Seq<u8>)
        ensures
            v.tag() < 15,
            BuildStatus::of_tag(v.tag()) == Some(v),
            BuildStatus::of_tag(tag) is Some <==> tag < 15,
            tag >= 15 ==> BuildStatus::parse(word(tag) + rest) == Err::<(BuildStatus, nat), Error>(
                Error::UnknownTag(tag),
            ),
    {
        u64::lemma_round_trip(tag, rest);
    }
}

impl Encode for BuildStatus {
    type Model = BuildStatus;

    open spec fn model(&self) -> BuildStatus {
        *self
    }

    open spec fn encoding(m: BuildStatus) -> Seq<u8> {
        word(m.tag())
    }

    proof fn lemma_encoding_aligned(m: BuildStatus) {
        lemma_word(m.tag());
    }

    fn encode(&self, out: &mut Vec<u8>) {
        self.to_u64().encode(out);
    }
}

impl Wire for BuildStatus {
    open spec fn encodable(m: BuildStatus) -> bool {
        true
    }

    open spec fn parse(s: Seq<u8>) -> Parsed<BuildStatus> {
        match parse_word(s) {
            Err(e) => Err(e),
            Ok((tag, n)) => match BuildStatus::of_tag(tag) {
                Some(v) => Ok((v, n)),
                None => Err(Error::UnknownTag(tag)),
            },
        }
    }

    proof fn lemma_parse_within(s: Seq<u8>) {
    }

    proof fn lemma_parse_stable(s: Seq<u8>, more: Seq<u8>) {
        lemma_word_stable(s, more);
    }

    proof fn lemma_round_trip(m: BuildStatus, rest: Seq<u8>) {
        u64::lemma_round_trip(m.tag(), rest);
    }

    fn decode(buf: &[u8], pos: usize) -> (r: Result<(BuildStatus, usize), Error>) {
        let (tag, p) = u64::decode(buf, pos)?;
        match BuildStatus::from_u64(tag) {
            Some(v) => Ok((v, p)),
            None => Err(Error::UnknownTag(tag)),
        }
    }
}

/// What the garbage collector is asked to do.
#[derive(Clone, Copy, Debug, PartialEq, Eq, Structural)]
pub enum GcAction {
    /// Report the paths that are reachable from a root.
    ReturnLive,
    /// Report the paths that are not.
    ReturnDead,
    /// Delete the paths that are not.
    DeleteDead,
    /// Delete the paths that the request names.
    DeleteSpecific,
}

impl GcAction {
    /// The word that stands for this variant.
    pub open spec fn tag(self) -> u64 {
        match self {
            GcAction::ReturnLive => 0,
            GcAction::ReturnDead => 1,
            GcAction::DeleteDead => 2,
            GcAction::DeleteSpecific => 3,
        }
    }

    /// The variant that `tag` stands for, if it stands for one.
    pub open spec fn of_tag(tag: u64) -> Option<GcAction> {
        match tag {
            0 => Some(GcAction::ReturnLive),
            1 => Some(GcAction::ReturnDead),
            2 => Some(GcAction::DeleteDead),
            3 => Some(GcAction::DeleteSpecific),
            _ => None,
        }
    }

    /// The word that stands for this variant.
    pub fn to_u64(self) -> (tag: u64)
        ensures
            tag == self.tag(),
    {
        match self {
            GcAction::ReturnLive => 0,
            GcAction::ReturnDead => 1,
            GcAction::DeleteDead => 2,
            GcAction::DeleteSpecific => 3,
        }
    }

    /// The variant that `tag` stands for, if it stands for one.
    pub fn from_u64(tag: u64) -> (v: Option<GcAction>)
        ensures
            v == GcAction::of_tag(tag),
    {
        match tag {
            0 => Some(GcAction::ReturnLive),
            1 => Some(GcAction::ReturnDead),
            2 => Some(GcAction::DeleteDead),
            3 => Some(GcAction::DeleteSpecific),
            _ => None,
        }
    }

    /// Every variant has a tag below 4 and is found again from it; no other
    /// word stands for a variant, and reading one fails with `UnknownTag`.
    pub proof fn lemma_tags_closed(v: GcAction, tag: u64, rest: Seq<u8>)
        ensures
            v.tag() < 4,
            GcAction::of_tag(v.tag()) == Some(v),
            GcAction::of_tag(tag) is Some <==> tag < 4,
            tag >= 4 ==> GcAction::parse(word(tag) + rest) == Err::<(GcAction, nat), Error>(
                Error::UnknownTag(tag),
            ),
    {
        u64::lemma_round_trip(tag, rest);
    }
}

impl Encode for GcAction {
    type Model = GcAction;

    open spec fn model(&self) -> GcAction {
        *self
    }

    open spec fn encoding(m: GcAction) -> Seq<u8> {
        word(m.tag())
    }

    proof fn lemma_encoding_aligned(m: GcAction) {
        lemma_word(m.tag());
    }

    fn encode(&self, out: &mut Vec<u8>) {
        self.to_u64().encode(out);
    }
}

impl Wire for GcAction {
    open spec fn encodable(m: GcAction) -> bool {
        true
    }

    open spec fn parse(s: Seq<u8>) -> Parsed<GcAction> {
        match parse_word(s) {
            Err(e) => Err(e),
            Ok((tag, n)) => match GcAction::of_tag(tag) {
                Some(v) => Ok((v, n)),
                None => Err(Error::UnknownTag(tag)),
            },
        }
    }

    proof fn lemma_parse_within(s: Seq<u8>) {
    }

    proof fn lemma_parse_stable(s: Seq<u8>, more: Seq<u8>) {
        lemma_word_stable(s, more);
    }

    proof fn lemma_round_trip(m: GcAction, rest: Seq<u8>) {
        u64::lemma_round_trip(m.tag(), rest);
    }

    fn decode(buf: &[u8], pos: usize) -> (r: Result<(GcAction, usize), Error>) {
        let (tag, p) = u64::decode(buf, pos)?;
        match GcAction::from_u64(tag) {
            Some(v) => Ok((v, p)),
            None => Err(Error::UnknownTag(tag)),
        }
    }
}

impl Default for GcAction {
    fn default() -> (v: GcAction)
        ensures
            v == GcAction::DeleteDead,
    {
        GcAction::DeleteDead
    }
}

} // verus!
