//! The configured shape of a task and its resolution against the external
//! resolvers.
//!
//! Resolution consults two resolvers: one for the task's read filter and
//! one for its entry-to-message map.  A resolver reporting "unavailable"
//! degrades the feature gracefully; only a resolver that itself errors
//! escalates to a hard error.

use vstd::prelude::*;

use crate::sink::Sink;
use crate::task::{EntryToMsgMap, ExternalDataResult, Task};

verus! {

/// The configured tag of a task.
pub enum Tag {
    /// A literal tag text.
    Literal(String),
    /// Use the task's own name as its tag.
    UseTaskName,
}

/// A hard error of task resolution: a resolver itself failed.
pub enum ConfigError {
    /// The read-filter resolver failed; carries its description.
    ReadFilter(String),
    /// The entry-to-message-map resolver failed; carries its description.
    EntryToMsgMap(String),
}

/// The configured shape of a task, before resolution.
pub struct TaskConfig {
    /// The expected read-filter strategy kind, when dedup is configured.
    pub read_filter_kind: Option<crate::config::read_filter::Kind>,
    /// The configured tag, if any.
    pub tag: Option<Tag>,
    /// The action chain, if one is configured.
    pub actions: Option<Vec<crate::action::Action>>,
    /// The sink, if one is configured.
    pub sink: Option<Sink>,
    /// Overrides whether the entry-to-message map is kept; absent means
    /// "when the sink can use it".
    pub entry_to_msg_map_enabled: Option<bool>,
}

/// The resolved tag: a literal stands as it is; the task name is used
/// when asked for and known, else the task goes untagged.
pub open spec fn resolved_tag_spec(tag: Option<Tag>, task_name: Option<Seq<char>>) -> Option<
    Seq<char>,
> {
    match tag {
        None => None,
        Some(Tag::Literal(s)) => Some(s@),
        Some(Tag::UseTaskName) => task_name,
    }
}

/// The description a failed resolver answer carries, if it failed.
pub open spec fn failed_msg<T>(r: ExternalDataResult<T>) -> Option<Seq<char>> {
    match r {
        ExternalDataResult::Failed(m) => Some(m@),
        _ => None,
    }
}

/// Whether the resolved task keeps an entry-to-message map: as overridden,
/// else exactly when its sink can address sent messages.
pub open spec fn map_enabled_spec(cfg: TaskConfig) -> bool {
    match cfg.entry_to_msg_map_enabled {
        Some(b) => b,
        None => match cfg.sink {
            Some(s) => s is Telegram,
            None => false,
        },
    }
}

impl TaskConfig {
    /// Resolves the configured task against the resolver answers: a
    /// configured read filter is taken from its resolver, degrading to no
    /// dedup when unavailable; the entry-to-message map is taken from its
    /// resolver exactly when enabled, degrading likewise; the tag resolves
    /// against the task name.  Only a failed resolver is a hard error,
    /// the read filter's first.
    pub fn parse(
        self,
        task_name: Option<&String>,
        rf_result: ExternalDataResult<crate::read_filter::ReadFilter>,
        map_result: ExternalDataResult<EntryToMsgMap>,
    ) -> (r: Result<Task, ConfigError>)
        ensures
            match r {
                Err(e) => match e {
                    ConfigError::ReadFilter(em) => self.read_filter_kind is Some && failed_msg(
                        rf_result,
                    ) == Some(em@),
                    ConfigError::EntryToMsgMap(em) => map_enabled_spec(self) && failed_msg(
                        map_result,
                    ) == Some(em@) && !(self.read_filter_kind is Some && rf_result is Failed),
                },
                Ok(t) => {
                    &&& !(self.read_filter_kind is Some && rf_result is Failed)
                    &&& !(map_enabled_spec(self) && map_result is Failed)
                    &&& t.read_filter == (match (self.read_filter_kind, rf_result) {
                        (Some(_), ExternalDataResult::Found(rf)) => Some(rf),
                        _ => None,
                    })
                    &&& t.entry_to_msg_map == (if map_enabled_spec(self) {
                        match map_result {
                            ExternalDataResult::Found(m) => Some(m),
                            _ => None,
                        }
                    } else {
                        None
                    })
                    &&& crate::entry::opt_view(t.tag) == resolved_tag_spec(
                        self.tag,
                        match task_name {
                            Some(n) => Some(n@),
                            None => None,
                        },
                    )
                    &&& t.actions == self.actions
                    &&& t.sink == self.sink
                },
            },
    {
        let map_enabled = match self.entry_to_msg_map_enabled {
            Some(b) => b,
            None => match &self.sink {
                Some(s) => s.has_message_id_support(),
                None => false,
            },
        };
        let read_filter = match self.read_filter_kind {
            Some(_) => match rf_result {
                ExternalDataResult::Found(rf) => Some(rf),
                ExternalDataResult::Unavailable => None,
                ExternalDataResult::Failed(m) => {
                    return Err(ConfigError::ReadFilter(m));
                },
            },
            None => None,
        };
        let entry_to_msg_map = if map_enabled {
            match map_result {
                ExternalDataResult::Found(m) => Some(m),
                ExternalDataResult::Unavailable => None,
                ExternalDataResult::Failed(m) => {
                    return Err(ConfigError::EntryToMsgMap(m));
                },
            }
        } else {
            None
        };
        let tag = match self.tag {
            None => None,
            Some(Tag::Literal(s)) => Some(s),
            Some(Tag::UseTaskName) => match task_name {
                Some(n) => Some(n.clone()),
                None => None,
            },
        };
        Ok(Task { tag, read_filter, actions: self.actions, sink: self.sink, entry_to_msg_map })
    }
}

} // verus!
