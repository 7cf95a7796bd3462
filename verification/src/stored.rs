//! What the desktop application reads of a library.

use vstd::prelude::*;
use vstd::string::*;

use crate::model::{
    BudgetView, CadenceView, CollectionBudget, CollectionId, CollectionRemovalPolicy,
    CollectionRule, HistoryPolicy, HistoryView, ImagePolicy, ImageView, RuleView, ScheduleCadence,
    WikiId,
};

verus! {

/// A registered source.
#[derive(Debug, PartialEq, Eq)]
pub struct StoredWiki {
    pub wiki_id: WikiId,
    pub api_endpoint: String,
    pub language_code: String,
}

/// Plain view of a source.
pub struct WikiView {
    pub wiki_id: u64,
    pub api_endpoint: Seq<char>,
    pub language_code: Seq<char>,
}

impl View for StoredWiki {
    type V = WikiView;

    open spec fn view(&self) -> WikiView {
        WikiView {
            wiki_id: self.wiki_id@,
            api_endpoint: self.api_endpoint@,
            language_code: self.language_code@,
        }
    }
}

impl Clone for StoredWiki {
    fn clone(&self) -> (copy: Self)
        ensures
            copy@ == self@,
    {
        StoredWiki {
            wiki_id: self.wiki_id,
            api_endpoint: self.api_endpoint.clone(),
            language_code: self.language_code.clone(),
        }
    }
}

/// A collection, tracked or stopped.
#[derive(Debug, PartialEq, Eq)]
pub struct StoredCollection {
    pub collection_id: CollectionId,
    pub wiki_id: WikiId,
    pub name: String,
    pub page_count: u64,
    /// When its tracking was stopped, where it was.
    pub tombstoned_at: Option<u64>,
}

/// Plain view of a collection.
pub struct CollectionView {
    pub collection_id: u64,
    pub wiki_id: u64,
    pub name: Seq<char>,
    pub page_count: u64,
    pub tombstoned_at: Option<u64>,
}

impl View for StoredCollection {
    type V = CollectionView;

    open spec fn view(&self) -> CollectionView {
        CollectionView {
            collection_id: self.collection_id@,
            wiki_id: self.wiki_id@,
            name: self.name@,
            page_count: self.page_count,
            tombstoned_at: self.tombstoned_at,
        }
    }
}

impl Clone for StoredCollection {
    fn clone(&self) -> (copy: Self)
        ensures
            copy@ == self@,
    {
        StoredCollection {
            collection_id: self.collection_id,
            wiki_id: self.wiki_id,
            name: self.name.clone(),
            page_count: self.page_count,
            tombstoned_at: self.tombstoned_at,
        }
    }
}

/// The committed configuration of a collection.
#[derive(Debug, PartialEq, Eq)]
pub struct StoredCollectionConfiguration {
    pub collection_id: CollectionId,
    pub wiki_id: WikiId,
    pub generation: u64,
    pub name: String,
    pub rule: CollectionRule,
    pub history_policy: HistoryPolicy,
    pub budget: CollectionBudget,
    pub removal_policy: CollectionRemovalPolicy,
    pub image_policy: ImagePolicy,
}

/// Plain view of a configuration.
pub struct ConfigurationView {
    pub collection_id: u64,
    pub wiki_id: u64,
    pub generation: u64,
    pub name: Seq<char>,
    pub rule: RuleView,
    pub history_policy: HistoryView,
    pub budget: BudgetView,
    pub removal_policy: CollectionRemovalPolicy,
    pub image_policy: ImageView,
}

impl View for StoredCollectionConfiguration {
    type V = ConfigurationView;

    open spec fn view(&self) -> ConfigurationView {
        ConfigurationView {
            collection_id: self.collection_id@,
            wiki_id: self.wiki_id@,
            generation: self.generation,
            name: self.name@,
            rule: self.rule@,
            history_policy: self.history_policy@,
            budget: self.budget@,
            removal_policy: self.removal_policy,
            image_policy: self.image_policy@,
        }
    }
}

impl Clone for StoredCollectionConfiguration {
    fn clone(&self) -> (copy: Self)
        ensures
            copy@ == self@,
    {
        StoredCollectionConfiguration {
            collection_id: self.collection_id,
            wiki_id: self.wiki_id,
            generation: self.generation,
            name: self.name.clone(),
            rule: self.rule.clone(),
            history_policy: self.history_policy,
            budget: self.budget,
            removal_policy: self.removal_policy,
            image_policy: self.image_policy,
        }
    }
}

/// The schedule of a collection.
#[derive(Clone, Copy, Debug, PartialEq, Eq, Structural)]
pub struct CollectionSchedule {
    pub collection_id: CollectionId,
    pub cadence: ScheduleCadence,
    pub jitter_seconds: u32,
    pub paused: bool,
    pub next_run_at: Option<u64>,
    pub last_started_at: Option<u64>,
}

/// Plain view of what a schedule is set to.
pub struct SettingsView {
    pub cadence: CadenceView,
    pub jitter_seconds: u32,
    pub paused: bool,
}

impl CollectionSchedule {
    /// What the schedule is set to, without whose it is and when it runs.
    pub open spec fn settings(&self) -> SettingsView {
        SettingsView {
            cadence: self.cadence@,
            jitter_seconds: self.jitter_seconds,
            paused: self.paused,
        }
    }
}

} // verus!
