//! What the configuration file and the command line say about logging, and
//! how the two are merged.

use crate::level::Threshold;
use vstd::prelude::*;

verus! {

/// The logging section of the configuration file.
#[derive(Clone, Debug)]
pub struct LogSettings {
    /// The threshold of the node's own modules, where one is set.
    pub level: Option<Threshold>,
    /// Thresholds of single modules. Where a module occurs more than once,
    /// its last entry counts.
    pub tags: Vec<(String, Threshold)>,
    /// Whether every line begins with the local time.
    pub timestamps: bool,
    /// The file that receives the lines; none means standard error.
    pub file: Option<String>,
}

/// What the command line says about logging.
#[derive(Clone, Debug)]
pub struct CommandLine {
    /// Replaces the level of the configuration file.
    pub log_level: Option<Threshold>,
    /// Added behind the tags of the configuration file.
    pub log_tags: Option<Vec<(String, Threshold)>>,
}

/// `LogSettings` as plain values.
pub struct SettingsView {
    pub level: Option<Threshold>,
    pub tags: Seq<(Seq<char>, Threshold)>,
    pub timestamps: bool,
    pub file: Option<Seq<char>>,
}

/// `CommandLine` as plain values.
pub struct CommandLineView {
    pub log_level: Option<Threshold>,
    pub log_tags: Option<Seq<(Seq<char>, Threshold)>>,
}

/// A list of tags as plain values.
pub open spec fn tags_view(tags: Seq<(String, Threshold)>) -> Seq<(Seq<char>, Threshold)> {
    tags.map_values(|tag: (String, Threshold)| (tag.0@, tag.1))
}

impl View for LogSettings {
    type V = SettingsView;

    open spec fn view(&self) -> SettingsView {
        SettingsView {
            level: self.level,
            tags: tags_view(self.tags@),
            timestamps: self.timestamps,
            file: match self.file {
                Some(file) => Some(file@),
                None => None,
            },
        }
    }
}

impl View for CommandLine {
    type V = CommandLineView;

    open spec fn view(&self) -> CommandLineView {
        CommandLineView {
            log_level: self.log_level,
            log_tags: match self.log_tags {
                Some(tags) => Some(tags_view(tags@)),
                None => None,
            },
        }
    }
}

/// The settings of a node without a logging section: no level, no tags, no
/// file, no timestamps.
pub open spec fn default_settings() -> SettingsView {
    SettingsView { level: None, tags: Seq::empty(), timestamps: false, file: None }
}

impl Default for LogSettings {
    fn default() -> (settings: Self)
        ensures
            settings@ == default_settings(),
    {
        let settings = LogSettings { level: None, tags: Vec::new(), timestamps: false, file: None };
        assert(settings@.tags =~= Seq::empty());
        settings
    }
}

/// The settings that count: those of the file, or the defaults where there
/// is no file; the level of the command line in place of the file's where
/// the command line has one; the tags of the command line behind the file's.
pub open spec fn merged(command_line: Option<CommandLineView>, file: Option<SettingsView>) -> SettingsView {
    let base = match file {
        Some(settings) => settings,
        None => default_settings(),
    };
    match command_line {
        None => base,
        Some(command_line) => SettingsView {
            level: match command_line.log_level {
                Some(level) => Some(level),
                None => base.level,
            },
            tags: match command_line.log_tags {
                Some(tags) => base.tags + tags,
                None => base.tags,
            },
            timestamps: base.timestamps,
            file: base.file,
        },
    }
}

/// The mapping that a list of tags stands for: each entry is written into
/// the mapping in turn, so a later entry replaces an earlier one of the
/// same module.
pub open spec fn tag_map(tags: Seq<(Seq<char>, Threshold)>) -> Map<Seq<char>, Threshold>
    decreases tags.len(),
{
    if tags.len() == 0 {
        Map::empty()
    } else {
        tag_map(tags.drop_last()).insert(tags.last().0, tags.last().1)
    }
}

/// Appends copies of the entries of `more` to `tags`.
fn extend_tags(tags: &mut Vec<(String, Threshold)>, more: &Vec<(String, Threshold)>)
    ensures
        tags_view(final(tags)@) == tags_view(old(tags)@) + tags_view(more@),
{
    let mut at: usize = 0;
    while at < more.len()
        invariant
            at <= more.len(),
            tags_view(tags@) == tags_view(old(tags)@) + tags_view(more@.take(at as int)),
        decreases more.len() - at,
    {
        let ghost before = tags@;
        let entry = &more[at];
        tags.push((entry.0.clone(), entry.1));
        at = at + 1;
        assert(tags_view(tags@) =~= tags_view(before).push((entry.0@, entry.1)));
    }
}

/// Merges the command line into the settings of the configuration file.
/// Either may be missing.
pub fn merge_settings(command_line_opt: Option<&CommandLine>, settings_opt: Option<&LogSettings>) -> (settings: LogSettings)
    ensures
        settings@ == merged(
            match command_line_opt {
                Some(command_line) => Some(command_line@),
                None => None,
            },
            match settings_opt {
                Some(file) => Some(file@),
                None => None,
            },
        ),
{
    let mut settings = match settings_opt {
        Some(file) => {
            let mut tags: Vec<(String, Threshold)> = Vec::new();
            extend_tags(&mut tags, &file.tags);
            LogSettings {
                level: file.level,
                tags,
                timestamps: file.timestamps,
                file: match &file.file {
                    Some(name) => Some(name.clone()),
                    None => None,
                },
            }
        },
        None => LogSettings::default(),
    };
    if let Some(command_line) = command_line_opt {
        if let Some(log_level) = command_line.log_level {
            settings.level = Some(log_level);
        }
        if let Some(log_tags) = &command_line.log_tags {
            extend_tags(&mut settings.tags, log_tags);
        }
    }
    settings
}

/// A module has a tag exactly where some entry names it.
pub proof fn lemma_tag_map_domain(tags: Seq<(Seq<char>, Threshold)>, module: Seq<char>)
    ensures
        tag_map(tags).contains_key(module) <==> exists|i: int|
            0 <= i < tags.len() && (#[trigger] tags[i]).0 == module,
    decreases tags.len(),
{
    if tags.len() > 0 {
        let before = tags.drop_last();
        lemma_tag_map_domain(before, module);
        if tags.last().0 == module {
            assert(tags[tags.len() - 1].0 == module);
        } else if tag_map(before).contains_key(module) {
            let i = choose|i: int| 0 <= i < before.len() && (#[trigger] before[i]).0 == module;
            assert(tags[i].0 == module);
        } else {
            assert forall|i: int| 0 <= i < tags.len() implies (#[trigger] tags[i]).0 != module by {
                if i < before.len() {
                    assert(before[i].0 == tags[i].0);
                }
            }
        }
    }
}

/// The last entry of a module is the one that counts.
pub proof fn lemma_last_tag_wins(tags: Seq<(Seq<char>, Threshold)>, at: int)
    requires
        0 <= at < tags.len(),
        forall|later: int| at < later < tags.len() ==> (#[trigger] tags[later]).0 != tags[at].0,
    ensures
        tag_map(tags).contains_key(tags[at].0),
        tag_map(tags)[tags[at].0] == tags[at].1,
    decreases tags.len(),
{
    if at < tags.len() - 1 {
        let before = tags.drop_last();
        assert(tags[tags.len() - 1].0 != tags[at].0);
        assert forall|later: int| at < later < before.len() implies (#[trigger] before[later]).0
            != before[at].0 by {
            assert(tags[later].0 != tags[at].0);
        }
        lemma_last_tag_wins(before, at);
    }
}

/// Tags that are added behind others replace them module by module and
/// leave the rest as it was.
pub proof fn lemma_tag_map_append(first: Seq<(Seq<char>, Threshold)>, second: Seq<(Seq<char>, Threshold)>)
    ensures
        tag_map(first + second) == tag_map(first).union_prefer_right(tag_map(second)),
    decreases second.len(),
{
    if second.len() == 0 {
        assert(first + second =~= first);
    } else {
        lemma_tag_map_append(first, second.drop_last());
        assert((first + second).drop_last() =~= first + second.drop_last());
    }
}

/// A tag of the command line beats a tag of the configuration file for the
/// same module; a module that the command line does not name keeps what the
/// file says of it.
pub proof fn lemma_command_line_tags_win(
    command_line: CommandLineView,
    file: SettingsView,
    module: Seq<char>,
)
    requires
        command_line.log_tags is Some,
    ensures
        ({
            let all = tag_map(merged(Some(command_line), Some(file)).tags);
            let ours = tag_map(command_line.log_tags->0);
            let theirs = tag_map(file.tags);
            &&& ours.contains_key(module) ==> all.contains_key(module) && all[module] == ours[module]
            &&& !ours.contains_key(module) ==> all.contains_key(module) == theirs.contains_key(
                module,
            )
            &&& !ours.contains_key(module) && theirs.contains_key(module) ==> all[module]
                == theirs[module]
        }),
{
    lemma_tag_map_append(file.tags, command_line.log_tags->0);
}

} // verus!
