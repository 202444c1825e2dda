//! Bounded streaming purge of a channel's message history.
//!
//! The history arrives newest-first as a lazy, single-pass stream. The scan
//! examines at most `max_scan` messages — the bound limits how many are
//! looked at, not how many are deleted — evaluates a selected predicate on
//! each retrieved message, and asks for the deletion of every match.
//! A message that cannot be retrieved is skipped, not fatal; deletions are
//! best-effort. The decision logic lives here; the transport performs the
//! fetches and deletions it is told to.

use vstd::prelude::*;
use crate::config::Config;
use crate::events::{InputError, Invocation, OptEntry, parse_u64, parse_u64_spec, text_opt, int_opt};
use crate::permissions::{grants_spec, permission_grants};
use crate::schema::{CommandSchema, OptKind, OptSpec, Registration};
use crate::textmatch::{contains_seq, contains_text_ci, folded_bytes, ascii_lowercase, contains_bytes};

verus! {

/// What a purge filter reads of one attachment: whether the platform
/// reports image dimensions for it.
pub struct AttachmentInfo {
    pub has_image_size: bool,
}

/// What the purge filters read of one message.
pub struct MessageData {
    pub author_id: u64,
    pub author_is_bot: bool,
    pub content: String,
    pub embed_count: usize,
    pub attachments: Vec<AttachmentInfo>,
}

/// The UTF-8 bytes of `http://`.
pub open spec fn http_needle() -> Seq<u8> {
    seq![104u8, 116u8, 116u8, 112u8, 58u8, 47u8, 47u8]
}

/// The UTF-8 bytes of `https://`.
pub open spec fn https_needle() -> Seq<u8> {
    seq![104u8, 116u8, 116u8, 112u8, 115u8, 58u8, 47u8, 47u8]
}

fn http_bytes() -> (r: Vec<u8>)
    ensures
        r@ == http_needle(),
{
    let mut r: Vec<u8> = Vec::new();
    r.push(104);
    r.push(116);
    r.push(116);
    r.push(112);
    r.push(58);
    r.push(47);
    r.push(47);
    proof {
        assert(r@ =~= http_needle());
    }
    r
}

fn https_bytes() -> (r: Vec<u8>)
    ensures
        r@ == https_needle(),
{
    let mut r: Vec<u8> = Vec::new();
    r.push(104);
    r.push(116);
    r.push(116);
    r.push(112);
    r.push(115);
    r.push(58);
    r.push(47);
    r.push(47);
    proof {
        assert(r@ =~= https_needle());
    }
    r
}

/// The closed set of purge predicates, each over a single message.
#[derive(Debug)]
pub enum PurgeFilter {
    All,
    FromActor(u64),
    HasEmbed,
    IsImage,
    HasAttachment,
    ContainsText(String),
    IsAutomated,
    ContainsLink,
}

/// Whether `f` selects message `m` for deletion. Text containment is
/// case-insensitive at the level of ASCII-folded UTF-8 bytes; a link is
/// `http://` or `https://` anywhere in the text, even inside another word.
pub open spec fn filter_matches(f: PurgeFilter, m: MessageData) -> bool {
    match f {
        PurgeFilter::All => true,
        PurgeFilter::FromActor(id) => m.author_id == id,
        PurgeFilter::HasEmbed => m.embed_count > 0,
        PurgeFilter::IsImage => m.attachments@.len() > 0 && m.attachments@[0].has_image_size,
        PurgeFilter::HasAttachment => m.attachments@.len() > 0,
        PurgeFilter::ContainsText(t) => contains_seq(folded_bytes(m.content@), folded_bytes(t@)),
        PurgeFilter::IsAutomated => m.author_is_bot,
        PurgeFilter::ContainsLink => contains_seq(folded_bytes(m.content@), http_needle())
            || contains_seq(folded_bytes(m.content@), https_needle()),
    }
}

impl PurgeFilter {
    /// Evaluates the predicate on one message.
    pub fn matches(&self, m: &MessageData) -> (r: bool)
        ensures
            r == filter_matches(*self, *m),
    {
        match self {
            PurgeFilter::All => true,
            PurgeFilter::FromActor(id) => m.author_id == *id,
            PurgeFilter::HasEmbed => m.embed_count > 0,
            PurgeFilter::IsImage => m.attachments.len() > 0 && m.attachments[0].has_image_size,
            PurgeFilter::HasAttachment => m.attachments.len() > 0,
            PurgeFilter::ContainsText(t) => contains_text_ci(m.content.as_str(), t.as_str()),
            PurgeFilter::IsAutomated => m.author_is_bot,
            PurgeFilter::ContainsLink => {
                let hb = m.content.as_str().as_bytes_vec();
                let hf = ascii_lowercase(&hb);
                let http = http_bytes();
                let https = https_bytes();
                contains_bytes(&hf, &http) || contains_bytes(&hf, &https)
            },
        }
    }
}

/// What one attempted retrieval from the history stream produced: a
/// message, a per-item retrieval error, or the end of the stream.
pub enum FetchOutcome<'a> {
    Fetched(&'a MessageData),
    FetchFailed,
    Exhausted,
}

/// What the scan asks of its driver after one attempted retrieval.
#[derive(Clone, Copy, PartialEq, Eq, Structural, Debug)]
pub enum ScanStep {
    DeleteAndContinue,
    Continue,
    Done,
}

/// The state of one bounded scan: the selected filter, the scan bound, how
/// many retrievals have been attempted, and whether the stream ended.
#[derive(Debug)]
pub struct ScanState {
    pub filter: PurgeFilter,
    pub max_scan: u64,
    pub scanned: u64,
    pub exhausted: bool,
}

impl ScanState {
    /// Whether the scan still wants another retrieval attempt.
    pub open spec fn active_spec(&self) -> bool {
        !self.exhausted && self.scanned < self.max_scan
    }

    /// A fresh scan: nothing attempted yet.
    pub fn new(filter: PurgeFilter, max_scan: u64) -> (r: ScanState)
        ensures
            r.filter == filter,
            r.max_scan == max_scan,
            r.scanned == 0,
            r.exhausted == false,
    {
        ScanState { filter, max_scan, scanned: 0, exhausted: false }
    }

    /// Whether the driver should attempt another retrieval. Once this is
    /// false it stays false: the scan never asks for more than `max_scan`
    /// attempts.
    pub fn wants_fetch(&self) -> (r: bool)
        ensures
            r == self.active_spec(),
    {
        !self.exhausted && self.scanned < self.max_scan
    }

    /// Advances the scan by one attempted retrieval. A retrieved message
    /// counts against the bound and is deleted exactly when the filter
    /// matches it; a failed retrieval counts and is skipped; the end of the
    /// stream finishes the scan.
    pub fn on_fetch<'a>(&mut self, outcome: FetchOutcome<'a>) -> (step: ScanStep)
        requires
            old(self).active_spec(),
        ensures
            final(self).filter == old(self).filter,
            final(self).max_scan == old(self).max_scan,
            outcome matches FetchOutcome::Fetched(m) ==> {
                &&& final(self).scanned == old(self).scanned + 1
                &&& final(self).exhausted == false
                &&& step == (if filter_matches(old(self).filter, *m) {
                    ScanStep::DeleteAndContinue
                } else {
                    ScanStep::Continue
                })
            },
            outcome is FetchFailed ==> {
                &&& final(self).scanned == old(self).scanned + 1
                &&& final(self).exhausted == false
                &&& step == ScanStep::Continue
            },
            outcome is Exhausted ==> {
                &&& final(self).scanned == old(self).scanned
                &&& final(self).exhausted == true
                &&& step == ScanStep::Done
            },
    {
        match outcome {
            FetchOutcome::Fetched(m) => {
                self.scanned = self.scanned + 1;
                if self.filter.matches(m) {
                    ScanStep::DeleteAndContinue
                } else {
                    ScanStep::Continue
                }
            },
            FetchOutcome::FetchFailed => {
                self.scanned = self.scanned + 1;
                ScanStep::Continue
            },
            FetchOutcome::Exhausted => {
                self.exhausted = true;
                ScanStep::Done
            },
        }
    }
}

/// One attempted retrieval of a finite stream prefix, as a value: a
/// message, or a per-item retrieval error.
pub enum FetchItem {
    Got(MessageData),
    Failed,
}

/// What a completed scan over a stream prefix did: how many retrievals it
/// attempted and which positions it deleted, in scan order.
pub struct ScanReport {
    pub attempts: u64,
    pub deleted: Vec<usize>,
}

/// The positions among the first `k` stream items that a scan with filter
/// `f` deletes: every retrievable item the filter matches, in order.
pub open spec fn deleted_spec(items: Seq<FetchItem>, f: PurgeFilter, k: int) -> Seq<int>
    decreases k,
{
    if k <= 0 {
        Seq::empty()
    } else {
        let prefix = deleted_spec(items, f, k - 1);
        match items[k - 1] {
            FetchItem::Got(m) => if filter_matches(f, m) {
                prefix.push(k - 1)
            } else {
                prefix
            },
            FetchItem::Failed => prefix,
        }
    }
}

/// Drives a whole scan over a finite prefix of the history stream: attempts
/// retrievals in order until the bound is reached or the prefix is
/// exhausted, and reports the attempted count and the deleted positions.
/// The attempt count never exceeds `max_scan`, however many items match.
pub fn run_scan(filter: PurgeFilter, max_scan: u64, items: &Vec<FetchItem>) -> (r: ScanReport)
    ensures
        r.attempts <= max_scan,
        r.attempts as int == (if items@.len() as int <= max_scan as int {
            items@.len() as int
        } else {
            max_scan as int
        }),
        r.deleted@.map_values(|u: usize| u as int) == deleted_spec(
            items@,
            filter,
            r.attempts as int,
        ),
{
    let n = items.len();
    let mut state = ScanState::new(filter, max_scan);
    let mut deleted: Vec<usize> = Vec::new();
    let mut i: usize = 0;
    proof {
        assert(deleted@.map_values(|u: usize| u as int) =~= Seq::<int>::empty());
    }
    while i < n && state.scanned < state.max_scan
        invariant
            i <= n,
            n == items@.len(),
            state.filter == filter,
            state.max_scan == max_scan,
            state.exhausted == false,
            state.scanned == i as u64,
            i as u64 <= max_scan,
            deleted@.map_values(|u: usize| u as int) == deleted_spec(items@, filter, i as int),
        decreases n - i,
    {
        let ghost pre_deleted = deleted@;
        let step = match &items[i] {
            FetchItem::Got(m) => state.on_fetch(FetchOutcome::Fetched(m)),
            FetchItem::Failed => state.on_fetch(FetchOutcome::FetchFailed),
        };
        if step == ScanStep::DeleteAndContinue {
            deleted.push(i);
        }
        proof {
            let k = i as int + 1;
            assert(deleted_spec(items@, filter, k) == (match items@[k - 1] {
                FetchItem::Got(m) => if filter_matches(filter, m) {
                    deleted_spec(items@, filter, k - 1).push(k - 1)
                } else {
                    deleted_spec(items@, filter, k - 1)
                },
                FetchItem::Failed => deleted_spec(items@, filter, k - 1),
            }));
            if step == ScanStep::DeleteAndContinue {
                assert(deleted@.map_values(|u: usize| u as int) =~= pre_deleted.map_values(
                    |u: usize| u as int,
                ).push(i as int));
            }
        }
        i = i + 1;
    }
    ScanReport { attempts: i as u64, deleted }
}

/// Over a stream whose first `k` items are all retrievable, the `All`
/// filter deletes exactly those first `k` positions, in order — the scan
/// bound limits what is examined, and everything examined matches.
pub proof fn lemma_all_filter_deletes_prefix(items: Seq<FetchItem>, k: int)
    requires
        0 <= k <= items.len(),
        forall|i: int| 0 <= i < k ==> items[i] is Got,
    ensures
        deleted_spec(items, PurgeFilter::All, k) =~= Seq::new(k as nat, |i: int| i),
    decreases k,
{
    if k > 0 {
        lemma_all_filter_deletes_prefix(items, k - 1);
        assert(Seq::new(k as nat, |i: int| i) =~= Seq::new((k - 1) as nat, |i: int| i).push(
            k - 1,
        ));
    }
}

/// The filter an actor can name when invoking the purge command.
#[derive(Clone, Copy, PartialEq, Eq, Structural, Debug)]
pub enum PurgeOption {
    All,
    FromUser,
    Embeds,
    Images,
    Attachments,
    Contains,
    Bots,
    Links,
}

/// The name under which each option is selected.
pub open spec fn option_name_spec(o: PurgeOption) -> Seq<char> {
    match o {
        PurgeOption::All => "all"@,
        PurgeOption::FromUser => "from_user"@,
        PurgeOption::Embeds => "embeds"@,
        PurgeOption::Images => "images"@,
        PurgeOption::Attachments => "attachments"@,
        PurgeOption::Contains => "contains"@,
        PurgeOption::Bots => "bots"@,
        PurgeOption::Links => "links"@,
    }
}

/// The option a filter name selects, if any.
pub open spec fn option_for_name_spec(name: Seq<char>) -> Option<PurgeOption> {
    if name == "all"@ {
        Option::Some(PurgeOption::All)
    } else if name == "from_user"@ {
        Option::Some(PurgeOption::FromUser)
    } else if name == "embeds"@ {
        Option::Some(PurgeOption::Embeds)
    } else if name == "images"@ {
        Option::Some(PurgeOption::Images)
    } else if name == "attachments"@ {
        Option::Some(PurgeOption::Attachments)
    } else if name == "contains"@ {
        Option::Some(PurgeOption::Contains)
    } else if name == "bots"@ {
        Option::Some(PurgeOption::Bots)
    } else if name == "links"@ {
        Option::Some(PurgeOption::Links)
    } else {
        Option::None
    }
}

/// The text of the `user` option, defaulting to `0` when absent.
pub open spec fn user_text_spec(opts: Seq<OptEntry>) -> Seq<char> {
    match text_opt(opts, "user"@) {
        Option::Some(t) => t,
        Option::None => "0"@,
    }
}

/// The text of the `contains` needle, defaulting to empty when absent.
pub open spec fn needle_text_spec(opts: Seq<OptEntry>) -> Seq<char> {
    match text_opt(opts, "text"@) {
        Option::Some(t) => t,
        Option::None => Seq::empty(),
    }
}

/// Whether `f` is the filter that option `o` denotes under the invocation
/// options `opts`.
pub open spec fn filter_of_option(o: PurgeOption, opts: Seq<OptEntry>, f: PurgeFilter) -> bool {
    match o {
        PurgeOption::All => f == PurgeFilter::All,
        PurgeOption::FromUser => f matches PurgeFilter::FromActor(id) && Option::Some(id)
            == parse_u64_spec(user_text_spec(opts)),
        PurgeOption::Embeds => f == PurgeFilter::HasEmbed,
        PurgeOption::Images => f == PurgeFilter::IsImage,
        PurgeOption::Attachments => f == PurgeFilter::HasAttachment,
        PurgeOption::Contains => f matches PurgeFilter::ContainsText(t) && t@ == needle_text_spec(
            opts,
        ),
        PurgeOption::Bots => f == PurgeFilter::IsAutomated,
        PurgeOption::Links => f == PurgeFilter::ContainsLink,
    }
}

/// An extra `user` option: who a `from_user` purge targets.
pub open spec fn is_user_extra(o: OptSpec) -> bool {
    &&& o.name@ == "user"@
    &&& o.kind == OptKind::User
    &&& !o.required
    &&& o.choices@.len() == 0
}

/// An extra `text` option: what a `contains` purge searches for.
pub open spec fn is_text_extra(o: OptSpec) -> bool {
    &&& o.name@ == "text"@
    &&& o.kind == OptKind::Text
    &&& !o.required
    &&& o.choices@.len() == 0
}

impl PurgeOption {
    /// The name under which this option is selected.
    pub fn name(&self) -> (r: String)
        ensures
            r@ == option_name_spec(*self),
    {
        match self {
            PurgeOption::All => "all".to_owned(),
            PurgeOption::FromUser => "from_user".to_owned(),
            PurgeOption::Embeds => "embeds".to_owned(),
            PurgeOption::Images => "images".to_owned(),
            PurgeOption::Attachments => "attachments".to_owned(),
            PurgeOption::Contains => "contains".to_owned(),
            PurgeOption::Bots => "bots".to_owned(),
            PurgeOption::Links => "links".to_owned(),
        }
    }

    /// The option a filter name selects, if any.
    pub fn from_name(name: &String) -> (r: Option<PurgeOption>)
        ensures
            r == option_for_name_spec(name@),
    {
        if *name == "all".to_owned() {
            Some(PurgeOption::All)
        } else if *name == "from_user".to_owned() {
            Some(PurgeOption::FromUser)
        } else if *name == "embeds".to_owned() {
            Some(PurgeOption::Embeds)
        } else if *name == "images".to_owned() {
            Some(PurgeOption::Images)
        } else if *name == "attachments".to_owned() {
            Some(PurgeOption::Attachments)
        } else if *name == "contains".to_owned() {
            Some(PurgeOption::Contains)
        } else if *name == "bots".to_owned() {
            Some(PurgeOption::Bots)
        } else if *name == "links".to_owned() {
            Some(PurgeOption::Links)
        } else {
            None
        }
    }

    /// The extra schema options this filter needs: a target for
    /// `from_user`, a needle for `contains`, nothing otherwise.
    pub fn register_options(&self) -> (r: Vec<OptSpec>)
        ensures
            *self == PurgeOption::FromUser ==> r@.len() == 1 && is_user_extra(r@[0]),
            *self == PurgeOption::Contains ==> r@.len() == 1 && is_text_extra(r@[0]),
            *self != PurgeOption::FromUser && *self != PurgeOption::Contains ==> r@.len() == 0,
    {
        let mut r: Vec<OptSpec> = Vec::new();
        match self {
            PurgeOption::FromUser => {
                r.push(
                    OptSpec {
                        name: "user".to_owned(),
                        kind: OptKind::User,
                        required: false,
                        choices: Vec::new(),
                    },
                );
            },
            PurgeOption::Contains => {
                r.push(
                    OptSpec {
                        name: "text".to_owned(),
                        kind: OptKind::Text,
                        required: false,
                        choices: Vec::new(),
                    },
                );
            },
            _ => {},
        }
        r
    }

    /// Builds the concrete filter this option denotes, reading its extra
    /// option from the invocation; an unparseable `user` id is reported.
    pub fn resolve(&self, inv: &Invocation) -> (r: Result<PurgeFilter, InputError>)
        ensures
            r is Err <==> *self == PurgeOption::FromUser && parse_u64_spec(
                user_text_spec(inv.options@),
            ) is None,
            r is Err ==> r == Result::<PurgeFilter, InputError>::Err(InputError::InvalidNumber),
            r is Ok ==> filter_of_option(*self, inv.options@, r.unwrap()),
    {
        match self {
            PurgeOption::All => Ok(PurgeFilter::All),
            PurgeOption::FromUser => {
                let txt = match inv.get_text(&"user".to_owned()) {
                    Some(t) => t,
                    None => "0".to_owned(),
                };
                match parse_u64(&txt) {
                    Some(id) => Ok(PurgeFilter::FromActor(id)),
                    None => Err(InputError::InvalidNumber),
                }
            },
            PurgeOption::Embeds => Ok(PurgeFilter::HasEmbed),
            PurgeOption::Images => Ok(PurgeFilter::IsImage),
            PurgeOption::Attachments => Ok(PurgeFilter::HasAttachment),
            PurgeOption::Contains => {
                let txt = match inv.get_text(&"text".to_owned()) {
                    Some(t) => t,
                    None => String::new(),
                };
                Ok(PurgeFilter::ContainsText(txt))
            },
            PurgeOption::Bots => Ok(PurgeFilter::IsAutomated),
            PurgeOption::Links => Ok(PurgeFilter::ContainsLink),
        }
    }
}

/// The scan bound the invocation asks for: the `amount` option clamped to
/// zero when negative, defaulting to 50 when absent.
pub open spec fn amount_spec(opts: Seq<OptEntry>) -> u64 {
    match int_opt(opts, "amount"@) {
        Option::Some(v) => if v < 0 {
            0u64
        } else {
            v as u64
        },
        Option::None => 50u64,
    }
}

/// The order in which the purge command offers its filters.
pub open spec fn purge_option_order() -> Seq<PurgeOption> {
    seq![
        PurgeOption::All,
        PurgeOption::FromUser,
        PurgeOption::Embeds,
        PurgeOption::Images,
        PurgeOption::Attachments,
        PurgeOption::Contains,
        PurgeOption::Bots,
        PurgeOption::Links,
    ]
}

/// The purge command: holds the offered filter options; stateless across
/// invocations.
pub struct Purge {
    options: Vec<PurgeOption>,
}

impl Purge {
    /// The offered filter options.
    pub closed spec fn options_spec(&self) -> Seq<PurgeOption> {
        self.options@
    }

    /// The command offers exactly the closed filter set, in order.
    pub open spec fn wf(&self) -> bool {
        self.options_spec() == purge_option_order()
    }

    /// The command's name.
    pub fn name(&self) -> (r: String)
        ensures
            r@ == "purge"@,
    {
        "purge".to_owned()
    }

    /// A purge command offering the full filter set.
    pub fn new() -> (r: Purge)
        ensures
            r.wf(),
    {
        let mut options: Vec<PurgeOption> = Vec::new();
        options.push(PurgeOption::All);
        options.push(PurgeOption::FromUser);
        options.push(PurgeOption::Embeds);
        options.push(PurgeOption::Images);
        options.push(PurgeOption::Attachments);
        options.push(PurgeOption::Contains);
        options.push(PurgeOption::Bots);
        options.push(PurgeOption::Links);
        proof {
            assert(options@ =~= purge_option_order());
        }
        Purge { options }
    }

    /// Declares the command: a filter name, a required scan amount, and the
    /// extra options of the filters that take one; open to support, trial
    /// support and staff.
    pub fn register(&self, cfg: &Config) -> (r: Registration)
        requires
            self.wf(),
        ensures
            r.schema.name@ == "purge"@,
            r.schema.default_visible == false,
            r.schema.subcommands@.len() == 0,
            r.schema.options@.len() == 4,
            r.schema.options@[0].name@ == "filter"@ && r.schema.options@[0].kind == OptKind::Text
                && !r.schema.options@[0].required,
            r.schema.options@[1].name@ == "amount"@ && r.schema.options@[1].kind
                == OptKind::Integer && r.schema.options@[1].required,
            is_user_extra(r.schema.options@[2]),
            is_text_extra(r.schema.options@[3]),
            r.grants@ == grants_spec(seq![cfg.support, cfg.trial_support, cfg.staff]),
    {
        let mut options: Vec<OptSpec> = Vec::new();
        options.push(
            OptSpec {
                name: "filter".to_owned(),
                kind: OptKind::Text,
                required: false,
                choices: Vec::new(),
            },
        );
        options.push(
            OptSpec {
                name: "amount".to_owned(),
                kind: OptKind::Integer,
                required: true,
                choices: Vec::new(),
            },
        );
        let n = self.options.len();
        let mut i: usize = 0;
        while i < n
            invariant
                i <= n,
                n == 8,
                self.options@ == purge_option_order(),
                options@.len() == (if i <= 1 {
                    2int
                } else if i <= 5 {
                    3int
                } else {
                    4int
                }),
                options@[0].name@ == "filter"@ && options@[0].kind == OptKind::Text
                    && !options@[0].required,
                options@[1].name@ == "amount"@ && options@[1].kind == OptKind::Integer
                    && options@[1].required,
                options@.len() >= 3 ==> is_user_extra(options@[2]),
                options@.len() >= 4 ==> is_text_extra(options@[3]),
            decreases n - i,
        {
            let mut extra = self.options[i].register_options();
            options.append(&mut extra);
            i = i + 1;
        }
        let mut required: Vec<u64> = Vec::new();
        required.push(cfg.support);
        required.push(cfg.trial_support);
        let mut baseline: Vec<u64> = Vec::new();
        baseline.push(cfg.staff);
        let grants = permission_grants(&required, &baseline);
        proof {
            assert(required@ + baseline@ =~= seq![cfg.support, cfg.trial_support, cfg.staff]);
        }
        Registration {
            schema: CommandSchema {
                name: "purge".to_owned(),
                description: "Purges a specific amount of messages from the channel".to_owned(),
                default_visible: false,
                options,
                subcommands: Vec::new(),
            },
            grants,
        }
    }

    /// Turns one invocation into a ready scan: reads the filter name, the
    /// scan amount and the filter's extra option, and reports exactly what
    /// was wrong with the input otherwise.
    pub fn plan(&self, inv: &Invocation) -> (r: Result<ScanState, InputError>)
        requires
            self.wf(),
        ensures
            (r == Result::<ScanState, InputError>::Err(InputError::MissingOption)) <==> text_opt(
                inv.options@,
                "filter"@,
            ) is None,
            text_opt(inv.options@, "filter"@) matches Option::Some(fname) ==> ((r
                == Result::<ScanState, InputError>::Err(InputError::UnknownFilter))
                <==> option_for_name_spec(fname) is None),
            text_opt(inv.options@, "filter"@) matches Option::Some(fname)
                ==> option_for_name_spec(fname) matches Option::Some(o) ==> {
                &&& (r is Err ==> r == Result::<ScanState, InputError>::Err(
                    InputError::InvalidNumber,
                ) && o == PurgeOption::FromUser && parse_u64_spec(
                    user_text_spec(inv.options@),
                ) is None)
                &&& (o == PurgeOption::FromUser && parse_u64_spec(
                    user_text_spec(inv.options@),
                ) is None ==> r is Err)
                &&& (r matches Result::Ok(st) ==> {
                    &&& st.scanned == 0
                    &&& st.exhausted == false
                    &&& st.max_scan == amount_spec(inv.options@)
                    &&& filter_of_option(o, inv.options@, st.filter)
                })
            },
    {
        let fname = match inv.get_text(&"filter".to_owned()) {
            Some(s) => s,
            None => {
                return Err(InputError::MissingOption);
            },
        };
        let opt = match PurgeOption::from_name(&fname) {
            Some(o) => o,
            None => {
                return Err(InputError::UnknownFilter);
            },
        };
        let amount = match inv.get_int(&"amount".to_owned()) {
            Some(v) => if v < 0 {
                0u64
            } else {
                v as u64
            },
            None => 50u64,
        };
        let filter = match opt.resolve(inv) {
            Ok(f) => f,
            Err(e) => {
                return Err(e);
            },
        };
        Ok(ScanState::new(filter, amount))
    }
}

} // verus!
