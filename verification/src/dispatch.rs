//! The dispatch of records: which module logs from which severity on, how a
//! record becomes a line, and where the lines go.
//!
//! Thresholds and filters are set on a `fern::Dispatch` right away. The
//! formatter and the sink are kept beside it as plain values: whoever
//! installs the logger gives fern a closure that calls
//! `LineFormatter::format_record`, and opens the sink.

use crate::format::{nimiq_colors, nimiq_colors_spec, LineFormatter};
use crate::level::{Threshold, DEFAULT_LEVEL};
use crate::settings::{
    merge_settings, merged, tag_map, tags_view, CommandLine, LogSettings, SettingsView,
};
use crate::text::has_prefix;
use vstd::prelude::*;

verus! {

/// fern's builder of a logger. What it holds is private to fern; the
/// three names below stand for the parts that this crate sets.
#[verifier::external_type_specification]
#[verifier::external_body]
pub struct ExDispatch(fern::Dispatch);

/// The thresholds that a dispatch holds for single modules, by module name.
/// fern applies the entry of a module to the modules below it as well, as
/// long as they have no entry of their own.
pub uninterp spec fn dispatch_levels(dispatch: fern::Dispatch) -> Map<Seq<char>, Threshold>;

/// The threshold that a dispatch applies to a module it holds no entry for.
pub uninterp spec fn dispatch_default_level(dispatch: fern::Dispatch) -> Threshold;

/// The prefixes that the filters of a dispatch ask of a record's target, in
/// the order in which the filters were added.
pub uninterp spec fn dispatch_target_prefixes(dispatch: fern::Dispatch) -> Seq<Seq<char>>;

/// No threshold for any single module.
pub open spec fn no_levels() -> Map<Seq<char>, Threshold> {
    Map::empty()
}

/// No filter on the target.
pub open spec fn no_prefixes() -> Seq<Seq<char>> {
    Seq::empty()
}

/// `Dispatch::new` of fern: no entry for any module, no filter, and
/// everything passes by default.
#[verifier::external_body]
fn dispatch_new() -> (dispatch: fern::Dispatch)
    ensures
        dispatch_levels(dispatch) == no_levels(),
        dispatch_default_level(dispatch) == Threshold::Trace,
        dispatch_target_prefixes(dispatch) == no_prefixes(),
{
    fern::Dispatch::new()
}

/// `Dispatch::level` of fern: replaces the default threshold and nothing
/// else.
#[verifier::external_body]
fn dispatch_level(dispatch: fern::Dispatch, level: Threshold) -> (out: fern::Dispatch)
    ensures
        dispatch_default_level(out) == level,
        dispatch_levels(out) == dispatch_levels(dispatch),
        dispatch_target_prefixes(out) == dispatch_target_prefixes(dispatch),
{
    let level = match level {
        Threshold::Off => log::LevelFilter::Off,
        Threshold::Error => log::LevelFilter::Error,
        Threshold::Warn => log::LevelFilter::Warn,
        Threshold::Info => log::LevelFilter::Info,
        Threshold::Debug => log::LevelFilter::Debug,
        Threshold::Trace => log::LevelFilter::Trace,
    };
    dispatch.level(level)
}

/// `Dispatch::level_for` of fern: drops the entry that the module had, if
/// any, and adds the new one; the other entries stay.
#[verifier::external_body]
fn dispatch_level_for(dispatch: fern::Dispatch, module: &str, level: Threshold) -> (out: fern::Dispatch)
    ensures
        dispatch_levels(out) == dispatch_levels(dispatch).insert(module@, level),
        dispatch_default_level(out) == dispatch_default_level(dispatch),
        dispatch_target_prefixes(out) == dispatch_target_prefixes(dispatch),
{
    let level = match level {
        Threshold::Off => log::LevelFilter::Off,
        Threshold::Error => log::LevelFilter::Error,
        Threshold::Warn => log::LevelFilter::Warn,
        Threshold::Info => log::LevelFilter::Info,
        Threshold::Debug => log::LevelFilter::Debug,
        Threshold::Trace => log::LevelFilter::Trace,
    };
    dispatch.level_for(module.to_owned(), level)
}

/// `Dispatch::filter` of fern, with a filter that lets a record pass where
/// its target begins with `prefix`. fern adds the filter behind those it
/// holds and asks every one of them.
#[verifier::external_body]
fn dispatch_filter_prefix(dispatch: fern::Dispatch, prefix: &'static str) -> (out: fern::Dispatch)
    ensures
        dispatch_target_prefixes(out) == dispatch_target_prefixes(dispatch).push(prefix@),
        dispatch_levels(out) == dispatch_levels(dispatch),
        dispatch_default_level(out) == dispatch_default_level(dispatch),
{
    dispatch.filter(move |metadata| has_prefix(metadata.target(), prefix))
}

/// The modules of the node itself. The two low-level libraries of the
/// project, `beserial` and `libargon2_sys`, are not among them.
pub open spec fn first_party_modules() -> Seq<Seq<char>> {
    seq![
        "nimiq_accounts"@,
        "nimiq_bls"@,
        "nimiq_blockchain"@,
        "nimiq_blockchain_albatross"@,
        "nimiq_block_production"@,
        "nimiq_block_production_albatross"@,
        "nimiq_block"@,
        "nimiq_block_albatross"@,
        "nimiq_block_base"@,
        "nimiq_account"@,
        "nimiq_transaction"@,
        "nimiq_client"@,
        "nimiq_collections"@,
        "nimiq_consensus"@,
        "nimiq_database"@,
        "nimiq_hash"@,
        "nimiq_key_derivation"@,
        "nimiq_keys"@,
        "nimiq_lib"@,
        "nimiq_macros"@,
        "nimiq_mempool"@,
        "nimiq_messages"@,
        "nimiq_metrics_server"@,
        "nimiq_mnemonic"@,
        "nimiq_network"@,
        "nimiq_network_primitives"@,
        "nimiq_primitives"@,
        "nimiq_rpc_server"@,
        "nimiq_utils"@,
        "nimiq_validator"@,
        "nimiq_handel"@,
    ]
}

/// A list of names as plain values.
pub open spec fn names_view(names: Seq<&'static str>) -> Seq<Seq<char>> {
    names.map_values(|name: &'static str| name@)
}

/// The names of the node's own modules.
pub fn nimiq_modules() -> (modules: Vec<&'static str>)
    ensures
        names_view(modules@) == first_party_modules(),
{
    let modules = vec![
        "nimiq_accounts",
        "nimiq_bls",
        "nimiq_blockchain",
        "nimiq_blockchain_albatross",
        "nimiq_block_production",
        "nimiq_block_production_albatross",
        "nimiq_block",
        "nimiq_block_albatross",
        "nimiq_block_base",
        "nimiq_account",
        "nimiq_transaction",
        "nimiq_client",
        "nimiq_collections",
        "nimiq_consensus",
        "nimiq_database",
        "nimiq_hash",
        "nimiq_key_derivation",
        "nimiq_keys",
        "nimiq_lib",
        "nimiq_macros",
        "nimiq_mempool",
        "nimiq_messages",
        "nimiq_metrics_server",
        "nimiq_mnemonic",
        "nimiq_network",
        "nimiq_network_primitives",
        "nimiq_primitives",
        "nimiq_rpc_server",
        "nimiq_utils",
        "nimiq_validator",
        "nimiq_handel",
    ];
    modules
}

/// `levels` after every module of `modules` has been given `level`.
pub open spec fn with_module_levels(
    levels: Map<Seq<char>, Threshold>,
    modules: Seq<Seq<char>>,
    level: Threshold,
) -> Map<Seq<char>, Threshold> {
    Map::new(
        |module: Seq<char>| levels.contains_key(module) || modules.contains(module),
        |module: Seq<char>|
            if modules.contains(module) {
                level
            } else {
                levels[module]
            },
    )
}

/// Giving the module at `count` its level, after those before it, is one
/// insertion.
proof fn lemma_with_module_levels_step(
    levels: Map<Seq<char>, Threshold>,
    modules: Seq<Seq<char>>,
    count: int,
    level: Threshold,
)
    requires
        0 <= count < modules.len(),
    ensures
        with_module_levels(levels, modules.take(count), level).insert(modules[count], level)
            == with_module_levels(levels, modules.take(count + 1), level),
{
    let before = modules.take(count);
    let now = modules.take(count + 1);
    assert forall|name: Seq<char>| now.contains(name) <==> (before.contains(name) || name
        == modules[count]) by {
        if now.contains(name) {
            let i = choose|i: int| 0 <= i < now.len() && now[i] == name;
            if i < count {
                assert(before[i] == name);
            }
        }
        if before.contains(name) {
            let i = choose|i: int| 0 <= i < before.len() && before[i] == name;
            assert(now[i] == name);
        }
        if name == modules[count] {
            assert(now[count] == name);
        }
    }
    assert(with_module_levels(levels, before, level).insert(modules[count], level)
        =~= with_module_levels(levels, now, level));
}

/// The threshold that holds for `module` under the entries `levels` and the
/// default `default_level`: its own entry where it has one.
pub open spec fn threshold_in(
    levels: Map<Seq<char>, Threshold>,
    default_level: Threshold,
    module: Seq<char>,
) -> Threshold {
    if levels.contains_key(module) {
        levels[module]
    } else {
        default_level
    }
}

/// A dispatch under construction, with the formatter that its records are
/// to pass through.
pub struct DispatchBuilder {
    /// Holds the thresholds and filters set so far; no formatter and no
    /// sink is set on it.
    pub dispatch: fern::Dispatch,
    /// How records become lines; none leaves them as they are.
    pub formatter: Option<LineFormatter>,
}

/// What this logger adds to a dispatch.
pub trait NimiqDispatch: Sized {
    /// The thresholds held for single modules.
    spec fn levels(&self) -> Map<Seq<char>, Threshold>;

    /// The threshold of the modules without an entry.
    spec fn default_level(&self) -> Threshold;

    /// The prefixes that the filters ask of a record's target.
    spec fn target_prefixes(&self) -> Seq<Seq<char>>;

    /// The formatter, if one is set.
    spec fn line_formatter(&self) -> Option<LineFormatter>;

    /// Has records shown as ` LEVEL module | message` in this logger's
    /// colours, with the local time in front where `show_timestamps` is set.
    fn pretty_logging(self, show_timestamps: bool) -> (out: Self)
        ensures
            out.line_formatter() == Some(
                (LineFormatter { timestamps: show_timestamps, colors: nimiq_colors_spec() }),
            ),
            out.levels() == self.levels(),
            out.default_level() == self.default_level(),
            out.target_prefixes() == self.target_prefixes(),
    ;

    /// Gives every module of the node itself the threshold `level`, in
    /// place of the entry that it may have had.
    fn level_for_nimiq(self, level: Threshold) -> (out: Self)
        ensures
            out.levels() == with_module_levels(self.levels(), first_party_modules(), level),
            out.default_level() == self.default_level(),
            out.target_prefixes() == self.target_prefixes(),
            out.line_formatter() == self.line_formatter(),
    ;

    /// Lets only those records pass whose target begins with `nimiq`.
    fn only_nimiq(self) -> (out: Self)
        ensures
            out.target_prefixes() == self.target_prefixes().push("nimiq"@),
            out.levels() == self.levels(),
            out.default_level() == self.default_level(),
            out.line_formatter() == self.line_formatter(),
    ;
}

impl DispatchBuilder {
    /// A dispatch that lets everything pass and formats nothing.
    pub fn new() -> (out: Self)
        ensures
            out.levels() == no_levels(),
            out.default_level() == Threshold::Trace,
            out.target_prefixes() == no_prefixes(),
            out.line_formatter().is_none(),
    {
        DispatchBuilder { dispatch: dispatch_new(), formatter: None }
    }

    /// Sets the threshold of the modules without an entry of their own.
    pub fn level(self, level: Threshold) -> (out: Self)
        ensures
            out.default_level() == level,
            out.levels() == self.levels(),
            out.target_prefixes() == self.target_prefixes(),
            out.line_formatter() == self.line_formatter(),
    {
        DispatchBuilder { dispatch: dispatch_level(self.dispatch, level), formatter: self.formatter }
    }

    /// Sets the threshold of one module, in place of the entry that it may
    /// have had.
    pub fn level_for(self, module: &str, level: Threshold) -> (out: Self)
        ensures
            out.levels() == self.levels().insert(module@, level),
            out.default_level() == self.default_level(),
            out.target_prefixes() == self.target_prefixes(),
            out.line_formatter() == self.line_formatter(),
    {
        DispatchBuilder {
            dispatch: dispatch_level_for(self.dispatch, module, level),
            formatter: self.formatter,
        }
    }

    /// Sets the thresholds of `tags`, one after the other.
    pub fn levels_for(self, tags: &Vec<(String, Threshold)>) -> (out: Self)
        ensures
            out.levels() == self.levels().union_prefer_right(tag_map(tags_view(tags@))),
            out.default_level() == self.default_level(),
            out.target_prefixes() == self.target_prefixes(),
            out.line_formatter() == self.line_formatter(),
    {
        let ghost entries = tags_view(tags@);
        let ghost levels = self.levels();
        let ghost default_level = self.default_level();
        let ghost prefixes = self.target_prefixes();
        let ghost formatter = self.line_formatter();
        let mut builder = self;
        let mut at: usize = 0;
        while at < tags.len()
            invariant
                at <= tags.len(),
                entries == tags_view(tags@),
                builder.levels() == levels.union_prefer_right(tag_map(entries.take(at as int))),
                builder.default_level() == default_level,
                builder.target_prefixes() == prefixes,
                builder.line_formatter() == formatter,
            decreases tags.len() - at,
        {
            let tag = &tags[at];
            builder = builder.level_for(tag.0.as_str(), tag.1);
            at = at + 1;
            assert(entries.take(at as int).drop_last() =~= entries.take(at - 1));
        }
        assert(entries.take(at as int) =~= entries);
        builder
    }
}

impl NimiqDispatch for DispatchBuilder {
    open spec fn levels(&self) -> Map<Seq<char>, Threshold> {
        dispatch_levels(self.dispatch)
    }

    open spec fn default_level(&self) -> Threshold {
        dispatch_default_level(self.dispatch)
    }

    open spec fn target_prefixes(&self) -> Seq<Seq<char>> {
        dispatch_target_prefixes(self.dispatch)
    }

    open spec fn line_formatter(&self) -> Option<LineFormatter> {
        self.formatter
    }

    fn pretty_logging(self, show_timestamps: bool) -> (out: Self) {
        let colors_level = nimiq_colors();
        DispatchBuilder {
            dispatch: self.dispatch,
            formatter: Some(LineFormatter { timestamps: show_timestamps, colors: colors_level }),
        }
    }

    fn level_for_nimiq(self, level: Threshold) -> (out: Self) {
        let modules = nimiq_modules();
        let ghost levels = self.levels();
        let ghost default_level = self.default_level();
        let ghost prefixes = self.target_prefixes();
        let ghost formatter = self.line_formatter();
        let mut builder = self;
        let mut at: usize = 0;
        while at < modules.len()
            invariant
                at <= modules.len(),
                names_view(modules@) == first_party_modules(),
                builder.levels() == with_module_levels(
                    levels,
                    first_party_modules().take(at as int),
                    level,
                ),
                builder.default_level() == default_level,
                builder.target_prefixes() == prefixes,
                builder.line_formatter() == formatter,
            decreases modules.len() - at,
        {
            let module = modules[at];
            proof {
                assert(names_view(modules@)[at as int] == module@);
                lemma_with_module_levels_step(levels, first_party_modules(), at as int, level);
            }
            builder = builder.level_for(module, level);
            at = at + 1;
        }
        assert(first_party_modules().take(at as int) =~= first_party_modules());
        builder
    }

    fn only_nimiq(self) -> (out: Self) {
        DispatchBuilder { dispatch: dispatch_filter_prefix(self.dispatch, "nimiq"), formatter: self.formatter }
    }
}

/// Where the lines go.
#[derive(Clone, Debug)]
pub enum Sink {
    /// Into the file of this name, which is opened for appending and
    /// created where it does not exist.
    File(String),
    /// To standard error.
    Stderr,
}

/// `Sink` as plain values.
pub enum SinkView {
    File(Seq<char>),
    Stderr,
}

impl View for Sink {
    type V = SinkView;

    open spec fn view(&self) -> SinkView {
        match self {
            Sink::File(name) => SinkView::File(name@),
            Sink::Stderr => SinkView::Stderr,
        }
    }
}

/// The one sink of the settings: the file where one is named, else
/// standard error.
pub open spec fn sink_of(settings: SettingsView) -> SinkView {
    match settings.file {
        Some(name) => SinkView::File(name),
        None => SinkView::Stderr,
    }
}

/// The threshold that the settings give the node's own modules.
pub open spec fn first_party_level(settings: SettingsView) -> Threshold {
    match settings.level {
        Some(level) => level,
        None => DEFAULT_LEVEL,
    }
}

/// The entries of the dispatch that is built from `settings`: the node's
/// own modules at their common level, overlaid by the tags.
pub open spec fn configured_levels(settings: SettingsView) -> Map<Seq<char>, Threshold> {
    with_module_levels(
        no_levels(),
        first_party_modules(),
        first_party_level(settings),
    ).union_prefer_right(tag_map(settings.tags))
}

/// The threshold that `settings` mean for `module`: its tag where it has
/// one; else the common level where it is a module of the node itself;
/// else the default.
pub open spec fn effective_threshold(settings: SettingsView, module: Seq<char>) -> Threshold {
    if tag_map(settings.tags).contains_key(module) {
        tag_map(settings.tags)[module]
    } else if first_party_modules().contains(module) {
        first_party_level(settings)
    } else {
        DEFAULT_LEVEL
    }
}

/// A logger that is ready to be installed: the dispatch with all its
/// thresholds, the formatter, and the one sink.
pub struct Pipeline {
    pub dispatch: DispatchBuilder,
    pub sink: Sink,
}

/// Picks the sink: the file where the settings name one, else standard
/// error. Never both, never none.
pub fn choose_sink(settings: &LogSettings) -> (sink: Sink)
    ensures
        sink@ == sink_of(settings@),
{
    match &settings.file {
        Some(name) => Sink::File(name.clone()),
        None => Sink::Stderr,
    }
}

/// Builds the logger that the command line and the configuration file ask
/// for. Either may be missing.
///
/// What is left to the caller: to open the sink, to hand fern the
/// formatter, and to install the dispatch as the logger of the process,
/// which works once.
pub fn initialize_logging(command_line_opt: Option<&CommandLine>, settings_opt: Option<&LogSettings>) -> (pipeline: Pipeline)
    ensures
        ({
            let settings = merged(
                match command_line_opt {
                    Some(command_line) => Some(command_line@),
                    None => None,
                },
                match settings_opt {
                    Some(file) => Some(file@),
                    None => None,
                },
            );
            &&& pipeline.dispatch.line_formatter() == Some(
                (LineFormatter { timestamps: settings.timestamps, colors: nimiq_colors_spec() }),
            )
            &&& pipeline.dispatch.default_level() == DEFAULT_LEVEL
            &&& pipeline.dispatch.levels() == configured_levels(settings)
            &&& pipeline.dispatch.target_prefixes() == no_prefixes()
            &&& pipeline.sink@ == sink_of(settings)
        }),
{
    let settings = merge_settings(command_line_opt, settings_opt);
    let own_level = match settings.level {
        Some(level) => level,
        None => DEFAULT_LEVEL,
    };
    let dispatch = DispatchBuilder::new().pretty_logging(settings.timestamps).level(
        DEFAULT_LEVEL,
    ).level_for_nimiq(own_level).levels_for(&settings.tags);
    let sink = choose_sink(&settings);
    Pipeline { dispatch, sink }
}

/// Under the dispatch that is built from `settings`, every module has the
/// threshold that the settings mean for it: a tag beats the common level of
/// the node's own modules, and that beats the default.
pub proof fn lemma_configured_threshold(settings: SettingsView, module: Seq<char>)
    ensures
        threshold_in(configured_levels(settings), DEFAULT_LEVEL, module) == effective_threshold(
            settings,
            module,
        ),
{
}

/// A name whose first five characters spell `nimiq` begins with `nimiq`.
proof fn lemma_begins_with_nimiq(name: Seq<char>)
    requires
        name.len() >= 5,
        name[0] == 'n',
        name[1] == 'i',
        name[2] == 'm',
        name[3] == 'i',
        name[4] == 'q',
    ensures
        "nimiq"@.is_prefix_of(name),
{
    reveal_strlit("nimiq");
}

/// Every module of the node itself passes the filter of `only_nimiq`. The
/// two low-level libraries of the project do not pass it, and are not among
/// the modules that `level_for_nimiq` sets.
pub proof fn lemma_first_party_modules_begin_with_nimiq()
    ensures
        forall|i: int|
            0 <= i < first_party_modules().len() ==> "nimiq"@.is_prefix_of(
                #[trigger] first_party_modules()[i],
            ),
        !"nimiq"@.is_prefix_of("beserial"@),
        !"nimiq"@.is_prefix_of("libargon2_sys"@),
        !first_party_modules().contains("beserial"@),
        !first_party_modules().contains("libargon2_sys"@),
{
    reveal_strlit("nimiq_accounts");
    lemma_begins_with_nimiq("nimiq_accounts"@);
    reveal_strlit("nimiq_bls");
    lemma_begins_with_nimiq("nimiq_bls"@);
    reveal_strlit("nimiq_blockchain");
    lemma_begins_with_nimiq("nimiq_blockchain"@);
    reveal_strlit("nimiq_blockchain_albatross");
    lemma_begins_with_nimiq("nimiq_blockchain_albatross"@);
    reveal_strlit("nimiq_block_production");
    lemma_begins_with_nimiq("nimiq_block_production"@);
    reveal_strlit("nimiq_block_production_albatross");
    lemma_begins_with_nimiq("nimiq_block_production_albatross"@);
    reveal_strlit("nimiq_block");
    lemma_begins_with_nimiq("nimiq_block"@);
    reveal_strlit("nimiq_block_albatross");
    lemma_begins_with_nimiq("nimiq_block_albatross"@);
    reveal_strlit("nimiq_block_base");
    lemma_begins_with_nimiq("nimiq_block_base"@);
    reveal_strlit("nimiq_account");
    lemma_begins_with_nimiq("nimiq_account"@);
    reveal_strlit("nimiq_transaction");
    lemma_begins_with_nimiq("nimiq_transaction"@);
    reveal_strlit("nimiq_client");
    lemma_begins_with_nimiq("nimiq_client"@);
    reveal_strlit("nimiq_collections");
    lemma_begins_with_nimiq("nimiq_collections"@);
    reveal_strlit("nimiq_consensus");
    lemma_begins_with_nimiq("nimiq_consensus"@);
    reveal_strlit("nimiq_database");
    lemma_begins_with_nimiq("nimiq_database"@);
    reveal_strlit("nimiq_hash");
    lemma_begins_with_nimiq("nimiq_hash"@);
    reveal_strlit("nimiq_key_derivation");
    lemma_begins_with_nimiq("nimiq_key_derivation"@);
    reveal_strlit("nimiq_keys");
    lemma_begins_with_nimiq("nimiq_keys"@);
    reveal_strlit("nimiq_lib");
    lemma_begins_with_nimiq("nimiq_lib"@);
    reveal_strlit("nimiq_macros");
    lemma_begins_with_nimiq("nimiq_macros"@);
    reveal_strlit("nimiq_mempool");
    lemma_begins_with_nimiq("nimiq_mempool"@);
    reveal_strlit("nimiq_messages");
    lemma_begins_with_nimiq("nimiq_messages"@);
    reveal_strlit("nimiq_metrics_server");
    lemma_begins_with_nimiq("nimiq_metrics_server"@);
    reveal_strlit("nimiq_mnemonic");
    lemma_begins_with_nimiq("nimiq_mnemonic"@);
    reveal_strlit("nimiq_network");
    lemma_begins_with_nimiq("nimiq_network"@);
    reveal_strlit("nimiq_network_primitives");
    lemma_begins_with_nimiq("nimiq_network_primitives"@);
    reveal_strlit("nimiq_primitives");
    lemma_begins_with_nimiq("nimiq_primitives"@);
    reveal_strlit("nimiq_rpc_server");
    lemma_begins_with_nimiq("nimiq_rpc_server"@);
    reveal_strlit("nimiq_utils");
    lemma_begins_with_nimiq("nimiq_utils"@);
    reveal_strlit("nimiq_validator");
    lemma_begins_with_nimiq("nimiq_validator"@);
    reveal_strlit("nimiq_handel");
    lemma_begins_with_nimiq("nimiq_handel"@);
    reveal_strlit("nimiq");
    reveal_strlit("beserial");
    reveal_strlit("libargon2_sys");
    assert("beserial"@.subrange(0, 5)[0] != "nimiq"@[0]);
    assert("libargon2_sys"@.subrange(0, 5)[0] != "nimiq"@[0]);
}

} // verus!
