//! What the desktop application shows of a library, assembled from what was read of it.

use std::collections::HashSet;

use vstd::prelude::*;
use vstd::string::*;

use crate::labels::{StorageUsage, SyncCheckpoint};
use crate::model::NetworkTransferPolicy;
use crate::stored::{
    CollectionSchedule, CollectionView, StoredCollection, StoredCollectionConfiguration, StoredWiki,
};
use crate::text::{decimal, decimal_text, same_text};

verus! {

broadcast use vstd::std_specs::hash::group_hash_axioms;

/// How many recent revisions are shown.
pub const RECENT_REVISION_LIMIT: u32 = 12;

/// A failure that was recorded with its code.
#[derive(Debug, PartialEq, Eq)]
pub struct RecordedError {
    pub code: String,
    pub message: String,
}

/// One synchronization run.
#[derive(Debug, PartialEq, Eq)]
pub struct SyncRunStatus {
    pub run_id: u64,
    /// Stable name of what the run does.
    pub kind: String,
    /// Stable name of its state.
    pub state: String,
    /// Whether that state is the running one.
    pub running: bool,
    pub queued_jobs: u64,
    pub running_jobs: u64,
    pub succeeded_jobs: u64,
    pub failed_jobs: u64,
    pub latest_error: Option<RecordedError>,
}

/// One import of a dump.
#[derive(Debug, PartialEq, Eq)]
pub struct DumpImportStatus {
    pub import_id: u64,
    pub collection_id: u64,
    pub run_id: u64,
    /// Stable name of its state.
    pub state: String,
    pub pages_scanned: u64,
    pub imported_pages: u64,
    pub imported_canonical_bytes: u64,
    pub attempt_count: u64,
    pub retryable: bool,
    pub dump_digest: String,
    pub dump_compressed_bytes: u64,
    pub latest_error: Option<RecordedError>,
}

/// One captured revision as it is shown.
#[derive(Debug, PartialEq, Eq)]
pub struct RecentRevision {
    pub wiki_id: u64,
    pub revision_id: u64,
    pub title: String,
    pub timestamp: String,
    pub source_size: u64,
}

/// One captured revision as it was read, with the title of its page where that is known.
#[derive(Debug, PartialEq, Eq)]
pub struct StoredRevision {
    pub wiki_id: u64,
    pub page_id: u64,
    pub revision_id: u64,
    pub content_object_id: String,
    pub timestamp: String,
    pub source_size: u64,
    pub title: Result<Option<String>, String>,
}

/// Everything that is shown of a library.
#[derive(Debug, PartialEq, Eq)]
pub struct DashboardSnapshot {
    pub path: String,
    pub network_policy: NetworkTransferPolicy,
    pub wikis: Vec<StoredWiki>,
    pub collections: Vec<StoredCollection>,
    pub tombstoned_collections: Vec<StoredCollection>,
    pub collection_configurations: Vec<StoredCollectionConfiguration>,
    pub schedules: Vec<CollectionSchedule>,
    pub runs: Vec<SyncRunStatus>,
    pub dump_imports: Vec<DumpImportStatus>,
    pub checkpoints: Vec<SyncCheckpoint>,
    pub recent_revisions: Vec<RecentRevision>,
    pub unique_page_count: usize,
    pub recent_unique_object_count: usize,
    pub storage_usage: Result<StorageUsage, String>,
    pub schema_version: u32,
}

/// What was read of a library, each part or why it could not be read.
#[derive(Debug, PartialEq, Eq)]
pub struct SnapshotInputs {
    pub path: String,
    pub network_policy: Result<NetworkTransferPolicy, String>,
    pub collections: Result<Vec<StoredCollection>, String>,
    pub all_collections: Result<Vec<StoredCollection>, String>,
    pub wikis: Result<Vec<StoredWiki>, String>,
    /// The configuration of each tracked collection, where it has one.
    pub configurations: Result<Vec<Option<StoredCollectionConfiguration>>, String>,
    pub schedules: Result<Vec<CollectionSchedule>, String>,
    /// Wiki and page of every page of every tracked collection.
    pub pages: Result<Vec<(u64, u64)>, String>,
    pub runs: Result<Vec<SyncRunStatus>, String>,
    /// The dump import of each run, where it has one.
    pub dump_imports: Result<Vec<Option<DumpImportStatus>>, String>,
    pub checkpoints: Result<Vec<SyncCheckpoint>, String>,
    pub revisions: Result<Vec<StoredRevision>, String>,
    pub storage_usage: Result<StorageUsage, String>,
    pub schema_version: Result<u32, String>,
}

/// The collections whose tracking was stopped, in order.
pub open spec fn stopped(collections: Seq<StoredCollection>) -> Seq<CollectionView>
    decreases collections.len(),
{
    if collections.len() == 0 {
        Seq::empty()
    } else if collections.last().tombstoned_at is Some {
        stopped(collections.drop_last()).push(collections.last()@)
    } else {
        stopped(collections.drop_last())
    }
}

/// What is present of a list, in order.
pub open spec fn present<T>(items: Seq<Option<T>>) -> Seq<T>
    decreases items.len(),
{
    if items.len() == 0 {
        Seq::empty()
    } else {
        match items.last() {
            Some(item) => present(items.drop_last()).push(item),
            None => present(items.drop_last()),
        }
    }
}

/// How many different items a list holds.
pub open spec fn distinct<T>(items: Seq<T>) -> nat
    decreases items.len(),
{
    if items.len() == 0 {
        0
    } else {
        distinct(items.drop_last()) + if items.drop_last().contains(items.last()) {
            0nat
        } else {
            1nat
        }
    }
}

/// The objects of a list of revisions.
pub open spec fn object_ids(revisions: Seq<StoredRevision>) -> Seq<Seq<char>> {
    revisions.map_values(|revision: StoredRevision| revision.content_object_id@)
}

/// The title under which a revision is shown.
pub open spec fn shown_title(revision: StoredRevision) -> Result<Seq<char>, Seq<char>> {
    match revision.title {
        Err(message) => Err(message@),
        Ok(Some(title)) => Ok(title@),
        Ok(None) => Ok("Page "@ + decimal(revision.page_id as nat)),
    }
}

/// The first title from `i` on that could not be read.
pub open spec fn title_error(revisions: Seq<StoredRevision>, i: int) -> Option<Seq<char>>
    decreases revisions.len() - i,
{
    if i < 0 || i >= revisions.len() {
        None
    } else {
        match shown_title(revisions[i]) {
            Err(message) => Some(message),
            Ok(_) => title_error(revisions, i + 1),
        }
    }
}

/// A revision is shown as it was read.
pub open spec fn shown_as(revision: StoredRevision, shown: RecentRevision) -> bool {
    &&& shown.wiki_id == revision.wiki_id
    &&& shown.revision_id == revision.revision_id
    &&& shown_title(revision) == Ok::<Seq<char>, Seq<char>>(shown.title@)
    &&& shown.timestamp@ == revision.timestamp@
    &&& shown.source_size == revision.source_size
}

/// The message of a failed read.
pub open spec fn read_error<T>(read: Result<T, String>) -> Option<Seq<char>> {
    match read {
        Ok(_) => None,
        Err(message) => Some(message@),
    }
}

/// The earlier of two messages.
pub open spec fn earlier(first: Option<Seq<char>>, second: Option<Seq<char>>) -> Option<Seq<char>> {
    if first is Some {
        first
    } else {
        second
    }
}

/// Why a library cannot be shown: the first part that could not be read. A library whose
/// size is unknown is shown without it.
pub open spec fn snapshot_error(inputs: SnapshotInputs) -> Option<Seq<char>> {
    let lists = earlier(
        read_error(inputs.network_policy),
        earlier(
            read_error(inputs.collections),
            earlier(
                read_error(inputs.all_collections),
                earlier(
                    read_error(inputs.wikis),
                    earlier(read_error(inputs.configurations), read_error(inputs.schedules)),
                ),
            ),
        ),
    );
    let history = earlier(
        read_error(inputs.pages),
        earlier(
            read_error(inputs.runs),
            earlier(
                read_error(inputs.dump_imports),
                earlier(
                    read_error(inputs.checkpoints),
                    earlier(
                        read_error(inputs.revisions),
                        earlier(
                            match inputs.revisions {
                                Ok(revisions) => title_error(revisions@, 0),
                                Err(_) => None,
                            },
                            read_error(inputs.schema_version),
                        ),
                    ),
                ),
            ),
        ),
    );
    earlier(lists, history)
}

fn stopped_collections(collections: &Vec<StoredCollection>) -> (kept: Vec<StoredCollection>)
    ensures
        kept@.map_values(|c: StoredCollection| c@) == stopped(collections@),
{
    let mut kept: Vec<StoredCollection> = Vec::new();
    let mut i: usize = 0;
    proof {
        assert(kept@.map_values(|c: StoredCollection| c@) =~= Seq::empty());
        assert(collections@.take(0) =~= Seq::empty());
    }
    while i < collections.len()
        invariant
            i <= collections@.len(),
            kept@.map_values(|c: StoredCollection| c@) == stopped(collections@.take(i as int)),
        decreases collections@.len() - i,
    {
        let ghost before = kept@;
        proof {
            assert(collections@.take(i + 1).drop_last() =~= collections@.take(i as int));
        }
        if collections[i].tombstoned_at.is_some() {
            let copy = collections[i].clone();
            kept.push(copy);
            proof {
                assert(kept@.map_values(|c: StoredCollection| c@) =~= before.map_values(
                    |c: StoredCollection| c@,
                ).push(collections@[i as int]@));
            }
        }
        i = i + 1;
    }
    proof {
        assert(collections@.take(i as int) =~= collections@);
    }
    kept
}

fn flatten<T>(items: Vec<Option<T>>) -> (kept: Vec<T>)
    ensures
        kept@ == present(items@),
{
    let mut rest = items;
    let mut reversed: Vec<T> = Vec::new();
    let ghost all = rest@;
    proof {
        assert(reversed@.reverse() =~= Seq::empty());
        assert(present(all) =~= present(rest@) + reversed@.reverse());
    }
    while rest.len() > 0
        invariant
            present(all) == present(rest@) + reversed@.reverse(),
        decreases rest@.len(),
    {
        let ghost before = rest@;
        let ghost kept = reversed@;
        let item = rest.pop();
        proof {
            assert(rest@ =~= before.drop_last());
        }
        match item {
            Some(Some(item)) => {
                reversed.push(item);
                proof {
                    assert(reversed@.reverse() =~= seq![item] + kept.reverse());
                    assert(present(before) =~= present(rest@).push(item));
                    assert(present(before) + kept.reverse() =~= present(rest@) + reversed@.reverse());
                }
            },
            _ => {},
        }
    }
    proof {
        assert(present(rest@) =~= Seq::<T>::empty());
        assert(present(all) =~= reversed@.reverse());
    }
    let mut kept: Vec<T> = Vec::new();
    let ghost order = reversed@.reverse();
    while reversed.len() > 0
        invariant
            order == kept@ + reversed@.reverse(),
        decreases reversed@.len(),
    {
        let ghost before = reversed@;
        let ghost done = kept@;
        if let Some(item) = reversed.pop() {
            kept.push(item);
            proof {
                assert(before.reverse() =~= seq![item] + reversed@.reverse());
                assert(done + before.reverse() =~= kept@ + reversed@.reverse());
            }
        }
    }
    proof {
        assert(order =~= kept@);
    }
    kept
}

/// A wiki and a page in one number.
spec fn page_key(page: (u64, u64)) -> u128 {
    (page.0 as int * 0x1_0000_0000_0000_0000 + page.1) as u128
}

proof fn lemma_page_key(a: (u64, u64), b: (u64, u64))
    ensures
        page_key(a) == a.0 as int * 0x1_0000_0000_0000_0000 + a.1,
        page_key(a) == page_key(b) ==> a == b,
{
}

/// Counts every page once, however many collections hold it.
pub fn count_pages(pages: &Vec<(u64, u64)>) -> (count: usize)
    ensures
        count == distinct(pages@),
{
    let mut seen: HashSet<u128> = HashSet::new();
    let mut count: usize = 0;
    let mut i: usize = 0;
    proof {
        assert(pages@.take(0) =~= Seq::empty());
    }
    while i < pages.len()
        invariant
            i <= pages@.len(),
            count <= i,
            count == distinct(pages@.take(i as int)),
            forall|k: u128| #[trigger] seen@.contains(k) <==> exists|j: int|
                0 <= j < i && k == page_key(#[trigger] pages@[j]),
        decreases pages@.len() - i,
    {
        let page: (u64, u64) = pages[i];
        proof {
            lemma_page_key(page, page);
            let before = pages@.take(i as int);
            assert(pages@.take(i + 1).drop_last() =~= before);
            assert(pages@.take(i + 1).last() == page);
            if before.contains(page) {
                let j = choose|j: int| 0 <= j < before.len() && before[j] == page;
                assert(pages@[j] == page);
                assert(seen@.contains(page_key(page)));
            }
            if seen@.contains(page_key(page)) {
                let j = choose|j: int| 0 <= j < i && page_key(page) == page_key(#[trigger] pages@[j]);
                lemma_page_key(page, pages@[j]);
                assert(before[j] == page);
            }
        }
        let key: u128 = page.0 as u128 * 0x1_0000_0000_0000_0000 + page.1 as u128;
        let ghost old_seen = seen@;
        let fresh: bool = seen.insert(key);
        if fresh {
            count = count + 1;
        }
        proof {
            assert forall|k: u128| #[trigger] seen@.contains(k) <==> exists|j: int|
                0 <= j < i + 1 && k == page_key(#[trigger] pages@[j]) by {
                if seen@.contains(k) {
                    if k == key {
                        assert(pages@[i as int] == page);
                    } else {
                        assert(old_seen.contains(k));
                    }
                }
                if exists|j: int| 0 <= j < i + 1 && k == page_key(#[trigger] pages@[j]) {
                    let j = choose|j: int| 0 <= j < i + 1 && k == page_key(#[trigger] pages@[j]);
                    if j < i {
                        assert(old_seen.contains(k));
                    }
                }
            }
        }
        i = i + 1;
    }
    proof {
        assert(pages@.take(i as int) =~= pages@);
    }
    count
}

/// Counts every object once, however many revisions share it.
pub fn count_objects(revisions: &Vec<StoredRevision>) -> (count: usize)
    ensures
        count == distinct(object_ids(revisions@)),
{
    let ghost ids = object_ids(revisions@);
    let mut count: usize = 0;
    let mut i: usize = 0;
    proof {
        assert(ids.take(0) =~= Seq::empty());
    }
    while i < revisions.len()
        invariant
            i <= revisions@.len(),
            count <= i,
            ids == object_ids(revisions@),
            count == distinct(ids.take(i as int)),
        decreases revisions@.len() - i,
    {
        let mut j: usize = 0;
        while j < i && !same_text(
            revisions[j].content_object_id.as_str(),
            revisions[i].content_object_id.as_str(),
        )
            invariant
                j <= i < revisions@.len(),
                ids == object_ids(revisions@),
                forall|k: int| 0 <= k < j ==> ids[k] != ids[i as int],
            decreases i - j,
        {
            j = j + 1;
        }
        proof {
            let before = ids.take(i as int);
            assert(ids.take(i + 1).drop_last() =~= before);
            assert(ids.take(i + 1).last() == ids[i as int]);
            if j < i {
                assert(before[j as int] == ids[i as int]);
            } else if before.contains(ids[i as int]) {
                let k = choose|k: int| 0 <= k < before.len() && before[k] == ids[i as int];
                assert(ids[k] == ids[i as int]);
            }
        }
        if j == i {
            count = count + 1;
        }
        i = i + 1;
    }
    proof {
        assert(ids.take(i as int) =~= ids);
    }
    count
}

fn show_revisions(revisions: Vec<StoredRevision>) -> (r: Result<Vec<RecentRevision>, String>)
    ensures
        match r {
            Ok(shown) => title_error(revisions@, 0) is None && shown@.len() == revisions@.len()
                && forall|k: int|
                0 <= k < shown@.len() ==> shown_as(revisions@[k], #[trigger] shown@[k]),
            Err(message) => title_error(revisions@, 0) == Some(message@),
        },
{
    let mut shown: Vec<RecentRevision> = Vec::new();
    let mut i: usize = 0;
    while i < revisions.len()
        invariant
            i <= revisions@.len(),
            shown@.len() == i,
            title_error(revisions@, i as int) == title_error(revisions@, 0),
            forall|k: int| 0 <= k < i ==> shown_as(revisions@[k], #[trigger] shown@[k]),
        decreases revisions@.len() - i,
    {
        let revision = &revisions[i];
        let title = match &revision.title {
            Err(message) => return Err(message.clone()),
            Ok(Some(title)) => title.clone(),
            Ok(None) => {
                let mut title = "Page ".to_owned();
                title.append(decimal_text(revision.page_id).as_str());
                title
            },
        };
        shown.push(
            RecentRevision {
                wiki_id: revision.wiki_id,
                revision_id: revision.revision_id,
                title,
                timestamp: revision.timestamp.clone(),
                source_size: revision.source_size,
            },
        );
        i = i + 1;
    }
    Ok(shown)
}

/// Assembles what is shown of a library.
pub fn snapshot(inputs: SnapshotInputs) -> (r: Result<DashboardSnapshot, String>)
    ensures
        match r {
            Err(message) => snapshot_error(inputs) == Some(message@),
            Ok(shown) => {
                &&& snapshot_error(inputs) is None
                &&& shown.path == inputs.path
                &&& inputs.network_policy == Ok::<NetworkTransferPolicy, String>(
                    shown.network_policy,
                )
                &&& inputs.wikis == Ok::<Vec<StoredWiki>, String>(shown.wikis)
                &&& inputs.collections == Ok::<Vec<StoredCollection>, String>(shown.collections)
                &&& shown.tombstoned_collections@.map_values(|c: StoredCollection| c@) == stopped(
                    inputs.all_collections->Ok_0@,
                )
                &&& shown.collection_configurations@ == present(inputs.configurations->Ok_0@)
                &&& inputs.schedules == Ok::<Vec<CollectionSchedule>, String>(shown.schedules)
                &&& inputs.runs == Ok::<Vec<SyncRunStatus>, String>(shown.runs)
                &&& shown.dump_imports@ == present(inputs.dump_imports->Ok_0@)
                &&& inputs.checkpoints == Ok::<Vec<SyncCheckpoint>, String>(shown.checkpoints)
                &&& shown.recent_revisions@.len() == inputs.revisions->Ok_0@.len()
                &&& forall|k: int|
                    0 <= k < shown.recent_revisions@.len() ==> shown_as(
                        inputs.revisions->Ok_0@[k],
                        #[trigger] shown.recent_revisions@[k],
                    )
                &&& shown.unique_page_count == distinct(inputs.pages->Ok_0@)
                &&& shown.recent_unique_object_count == distinct(
                    object_ids(inputs.revisions->Ok_0@),
                )
                &&& shown.storage_usage == inputs.storage_usage
                &&& inputs.schema_version == Ok::<u32, String>(shown.schema_version)
            },
        },
{
    let network_policy = inputs.network_policy?;
    let collections = inputs.collections?;
    let all_collections = inputs.all_collections?;
    let tombstoned_collections = stopped_collections(&all_collections);
    let wikis = inputs.wikis?;
    let collection_configurations = flatten(inputs.configurations?);
    let schedules = inputs.schedules?;
    let pages = inputs.pages?;
    let unique_page_count: usize = count_pages(&pages);
    let runs = inputs.runs?;
    let dump_imports = flatten(inputs.dump_imports?);
    let checkpoints = inputs.checkpoints?;
    let revisions = inputs.revisions?;
    let recent_unique_object_count: usize = count_objects(&revisions);
    let recent_revisions = show_revisions(revisions)?;
    let schema_version: u32 = inputs.schema_version?;
    Ok(
        DashboardSnapshot {
            path: inputs.path,
            network_policy,
            wikis,
            collections,
            tombstoned_collections,
            collection_configurations,
            schedules,
            runs,
            dump_imports,
            checkpoints,
            recent_revisions,
            unique_page_count,
            recent_unique_object_count,
            storage_usage: inputs.storage_usage,
            schema_version,
        },
    )
}

/// A page that several collections hold is counted once.
pub proof fn law_shared_pages_are_counted_once(pages: Seq<(u64, u64)>, page: (u64, u64))
    requires
        pages.contains(page),
    ensures
        distinct(pages.push(page)) == distinct(pages),
{
    assert(pages.push(page).drop_last() =~= pages);
}

proof fn lemma_stopped(collections: Seq<StoredCollection>)
    ensures
        forall|i: int|
            0 <= i < collections.len() && collections[i].tombstoned_at is Some ==> stopped(
                collections,
            ).contains((#[trigger] collections[i])@),
        forall|k: int|
            0 <= k < stopped(collections).len() ==> (#[trigger] stopped(
                collections,
            )[k]).tombstoned_at is Some,
        stopped(collections).len() <= collections.len(),
    decreases collections.len(),
{
    if collections.len() > 0 {
        let rest = collections.drop_last();
        lemma_stopped(rest);
        assert forall|i: int|
            0 <= i < collections.len() && collections[i].tombstoned_at is Some implies stopped(
            collections,
        ).contains((#[trigger] collections[i])@) by {
            if i < rest.len() {
                assert(rest[i] == collections[i]);
                let k = stopped(rest).index_of(collections[i]@);
                assert(stopped(rest).contains(rest[i]@));
                assert(stopped(collections)[k] == collections[i]@);
            } else {
                assert(stopped(collections).last() == collections[i]@);
                assert(stopped(collections)[stopped(collections).len() - 1] == collections[i]@);
            }
        }
    }
}

proof fn lemma_present<T>(items: Seq<Option<T>>)
    ensures
        present(items).len() <= items.len(),
        (forall|i: int| 0 <= i < items.len() ==> (#[trigger] items[i]) is Some) ==> present(
            items,
        ).len() == items.len() && forall|i: int|
            0 <= i < items.len() ==> Some(present(items)[i]) == #[trigger] items[i],
        forall|i: int|
            0 <= i < items.len() && items[i] is Some ==> present(items).contains(
                (#[trigger] items[i])->0,
            ),
        forall|k: int|
            0 <= k < present(items).len() ==> items.contains(Some(#[trigger] present(items)[k])),
    decreases items.len(),
{
    if items.len() > 0 {
        let rest = items.drop_last();
        lemma_present(rest);
        let all = present(items);
        assert forall|i: int| 0 <= i < items.len() && items[i] is Some implies all.contains(
            (#[trigger] items[i])->0,
        ) by {
            if i < rest.len() {
                assert(rest[i] == items[i]);
                assert(present(rest).contains(rest[i]->0));
                let k = present(rest).index_of(items[i]->0);
                assert(all[k] == items[i]->0);
            } else {
                assert(all[all.len() - 1] == items[i]->0);
            }
        }
        assert forall|k: int| 0 <= k < all.len() implies items.contains(
            Some(#[trigger] all[k]),
        ) by {
            if k < present(rest).len() {
                assert(present(rest)[k] == all[k]);
                assert(rest.contains(Some(present(rest)[k])));
                let i = rest.index_of(Some(all[k]));
                assert(items[i] == Some(all[k]));
            } else {
                assert(items[items.len() - 1] == Some(all[k]));
            }
        }
        if forall|i: int| 0 <= i < items.len() ==> (#[trigger] items[i]) is Some {
            assert forall|i: int| 0 <= i < rest.len() implies (#[trigger] rest[i]) is Some by {
                assert(rest[i] == items[i]);
            }
            assert forall|i: int| 0 <= i < items.len() implies Some(all[i]) == #[trigger] items[i] by {
                if i < rest.len() {
                    assert(rest[i] == items[i]);
                }
            }
        }
    }
}

/// A library is shown exactly when everything but its size could be read. The stopped
/// collections are those among all that have an end, and of configurations and imports those
/// that exist.
pub proof fn law_library_is_shown_if_it_can_be_read(
    inputs: SnapshotInputs,
    r: Result<DashboardSnapshot, String>,
)
    requires
        call_ensures(snapshot, (inputs,), r),
    ensures
        r is Ok ==> inputs.network_policy is Ok && inputs.collections is Ok
            && inputs.all_collections is Ok && inputs.wikis is Ok && inputs.configurations is Ok
            && inputs.schedules is Ok && inputs.pages is Ok && inputs.runs is Ok
            && inputs.dump_imports is Ok && inputs.checkpoints is Ok && inputs.revisions is Ok
            && inputs.schema_version is Ok,
        inputs.network_policy is Ok && inputs.collections is Ok && inputs.all_collections is Ok
            && inputs.wikis is Ok && inputs.configurations is Ok && inputs.schedules is Ok
            && inputs.pages is Ok && inputs.runs is Ok && inputs.dump_imports is Ok
            && inputs.checkpoints is Ok && inputs.schema_version is Ok && (inputs.revisions
            matches Ok(revisions) && forall|i: int|
            0 <= i < revisions@.len() ==> (#[trigger] revisions@[i]).title is Ok) ==> r is Ok,
        r matches Ok(shown) ==> {
            let all = inputs.all_collections->Ok_0@;
            &&& forall|i: int|
                0 <= i < all.len() && (#[trigger] all[i]).tombstoned_at is Some ==> exists|k: int|
                    0 <= k < shown.tombstoned_collections@.len()
                        && (#[trigger] shown.tombstoned_collections@[k])@ == all[i]@
            &&& forall|k: int|
                0 <= k < shown.tombstoned_collections@.len() ==> (
                #[trigger] shown.tombstoned_collections@[k]).tombstoned_at is Some
            &&& forall|i: int|
                0 <= i < inputs.configurations->Ok_0@.len() && inputs.configurations->Ok_0@[i]
                    is Some ==> shown.collection_configurations@.contains(
                    (#[trigger] inputs.configurations->Ok_0@[i])->0,
                )
            &&& forall|i: int|
                0 <= i < inputs.dump_imports->Ok_0@.len() && inputs.dump_imports->Ok_0@[i] is Some
                    ==> shown.dump_imports@.contains((#[trigger] inputs.dump_imports->Ok_0@[i])->0)
        },
{
    if let Ok(revisions) = inputs.revisions {
        lemma_titles(revisions@, 0);
    }
    if let Ok(shown) = r {
        let all = inputs.all_collections->Ok_0@;
        let views = shown.tombstoned_collections@.map_values(|c: StoredCollection| c@);
        lemma_stopped(all);
        assert forall|i: int| 0 <= i < all.len() && (#[trigger] all[i]).tombstoned_at
            is Some implies exists|k: int|
            0 <= k < shown.tombstoned_collections@.len()
                && (#[trigger] shown.tombstoned_collections@[k])@ == all[i]@ by {
            assert(views.contains(all[i]@));
            let k = views.index_of(all[i]@);
            assert(shown.tombstoned_collections@[k]@ == all[i]@);
        }
        assert forall|k: int| 0 <= k < shown.tombstoned_collections@.len() implies (
        #[trigger] shown.tombstoned_collections@[k]).tombstoned_at is Some by {
            assert(views[k] == shown.tombstoned_collections@[k]@);
            assert(stopped(all)[k].tombstoned_at is Some);
        }
        lemma_present(inputs.configurations->Ok_0@);
        lemma_present(inputs.dump_imports->Ok_0@);
    }
}

proof fn lemma_titles(revisions: Seq<StoredRevision>, i: int)
    requires
        0 <= i <= revisions.len(),
    ensures
        title_error(revisions, i) is None <==> forall|k: int|
            i <= k < revisions.len() ==> (#[trigger] revisions[k]).title is Ok,
    decreases revisions.len() - i,
{
    if i < revisions.len() {
        lemma_titles(revisions, i + 1);
    }
}

/// A revision is shown with its own wiki, number, time and size, under its title or, where that
/// is not known, under the number of its page.
pub proof fn law_revisions_are_shown_as_read(
    inputs: SnapshotInputs,
    r: Result<DashboardSnapshot, String>,
)
    requires
        call_ensures(snapshot, (inputs,), r),
        r is Ok,
    ensures
        r->Ok_0.recent_revisions@.len() == inputs.revisions->Ok_0@.len(),
        forall|k: int|
            0 <= k < r->Ok_0.recent_revisions@.len() ==> {
                let shown = #[trigger] r->Ok_0.recent_revisions@[k];
                let read = inputs.revisions->Ok_0@[k];
                &&& shown.wiki_id == read.wiki_id && shown.revision_id == read.revision_id
                &&& shown.timestamp@ == read.timestamp@ && shown.source_size == read.source_size
                &&& read.title matches Ok(Some(title)) ==> shown.title@ == title@
                &&& read.title matches Ok(None) ==> shown.title@ == "Page "@ + decimal(
                    read.page_id as nat,
                )
            },
        r->Ok_0.storage_usage == inputs.storage_usage,
        r->Ok_0.path == inputs.path,
{
}

proof fn lemma_distinct<T>(items: Seq<T>)
    ensures
        distinct(items) <= items.len(),
        distinct(items) == items.len() <==> items.no_duplicates(),
        distinct(items) == 0 <==> items.len() == 0,
        distinct(items) == items.to_set().len(),
        items.to_set().finite(),
    decreases items.len(),
{
    broadcast use vstd::set::group_set_axioms;

    if items.len() > 0 {
        let rest = items.drop_last();
        let last = items.last();
        lemma_distinct(rest);
        assert(items =~= rest.push(last));
        assert forall|x: T| #[trigger] items.to_set().contains(x) <==> rest.to_set().insert(
            last,
        ).contains(x) by {
            if items.contains(x) {
                let i = items.index_of(x);
                if i < rest.len() {
                    assert(rest[i] == x);
                }
            }
            if rest.contains(x) {
                let i = rest.index_of(x);
                assert(items[i] == x);
            }
            assert(items[items.len() - 1] == last);
        }
        assert(items.to_set() =~= rest.to_set().insert(last));
        if items.no_duplicates() {
            assert(rest.no_duplicates());
            if rest.contains(last) {
                let i = rest.index_of(last);
                assert(items[i] == items[items.len() - 1]);
            }
        }
        if distinct(items) == items.len() {
            assert(!rest.contains(last));
            assert(rest.no_duplicates());
            assert forall|i: int, j: int|
                0 <= i < items.len() && 0 <= j < items.len() && i != j implies items[i]
                != items[j] by {
                if i < rest.len() && j < rest.len() {
                    assert(rest[i] != rest[j]);
                } else if i < rest.len() {
                    assert(rest[i] == items[i]);
                } else if j < rest.len() {
                    assert(rest[j] == items[j]);
                }
            }
        }
    } else {
        assert(items.to_set() =~= Set::empty());
    }
}

/// Pages and objects are counted as the sets that they are.
pub proof fn law_counts_are_of_different_things(
    pages: Vec<(u64, u64)>,
    revisions: Vec<StoredRevision>,
    page_count: usize,
    object_count: usize,
)
    requires
        call_ensures(count_pages, (&pages,), page_count),
        call_ensures(count_objects, (&revisions,), object_count),
    ensures
        page_count == pages@.to_set().len(),
        object_count == Seq::new(
            revisions@.len(),
            |i: int| revisions@[i].content_object_id@,
        ).to_set().len(),
{
    lemma_distinct(pages@);
    lemma_distinct(object_ids(revisions@));
    assert(object_ids(revisions@) =~= Seq::new(
        revisions@.len(),
        |i: int| revisions@[i].content_object_id@,
    ));
}

} // verus!
