//! Identities, selection rules and policies that a library is configured with.
//!
//! Every type has a plain view, made of numbers, characters and sequences, and the wire
//! contracts of the other modules are stated over these views.

use vstd::prelude::*;
use vstd::string::*;

use crate::text::{
    is_white_space_spec, law_only_white_space_trims_to_nothing, trim, trimmed,
};

verus! {

/// Namespace of ordinary articles.
pub const MAIN_NAMESPACE: i32 = 0;

/// Deepest accepted category recursion.
pub const DEFAULT_MAX_CATEGORY_DEPTH: u16 = 16;

/// Largest accepted thumbnail edge in pixels.
pub const MAX_THUMBNAIL_EDGE_PIXELS: u32 = 4_096;

pub const SECONDS_PER_DAY: u64 = 86_400;

/// What the model types answer to values outside their range.
#[derive(Clone, Copy, Debug, PartialEq, Eq, Structural)]
pub enum ModelError {
    ZeroIdentifier,
    BlankTitle,
    EmptySelection,
    ZeroLimit,
    ThumbnailEdgeTooLarge,
    ScheduleOutOfRange,
}

impl ModelError {
    /// The text shown for each error.
    pub open spec fn text(self) -> Seq<char> {
        match self {
            ModelError::ZeroIdentifier => "identifier must be positive"@,
            ModelError::BlankTitle => "page title must not be blank"@,
            ModelError::EmptySelection => "title selection must not be empty"@,
            ModelError::ZeroLimit => "limit must be positive"@,
            ModelError::ThumbnailEdgeTooLarge => "thumbnail edge exceeds its bound"@,
            ModelError::ScheduleOutOfRange => "schedule value is out of range"@,
        }
    }

    /// Human-readable description.
    pub fn message(self) -> (s: &'static str)
        ensures
            s@ == self.text(),
    {
        match self {
            ModelError::ZeroIdentifier => "identifier must be positive",
            ModelError::BlankTitle => "page title must not be blank",
            ModelError::EmptySelection => "title selection must not be empty",
            ModelError::ZeroLimit => "limit must be positive",
            ModelError::ThumbnailEdgeTooLarge => "thumbnail edge exceeds its bound",
            ModelError::ScheduleOutOfRange => "schedule value is out of range",
        }
    }
}

/// Durable identity of a registered source wiki.
#[derive(Clone, Copy, Debug, PartialEq, Eq, Structural)]
pub struct WikiId {
    raw: u64,
}

impl View for WikiId {
    type V = u64;

    closed spec fn view(&self) -> u64 {
        self.raw
    }
}

impl WikiId {
    #[verifier::type_invariant]
    spec fn positive(self) -> bool {
        self.raw > 0
    }

    /// Accepts every identifier but zero.
    pub fn new(raw: u64) -> (r: Result<WikiId, ModelError>)
        ensures
            raw == 0 ==> r == Err::<WikiId, ModelError>(ModelError::ZeroIdentifier),
            raw != 0 ==> r is Ok && r->Ok_0@ == raw,
    {
        if raw == 0 {
            Err(ModelError::ZeroIdentifier)
        } else {
            Ok(WikiId { raw })
        }
    }

    pub fn get(self) -> (raw: u64)
        ensures
            raw == self@,
            raw > 0,
    {
        proof {
            use_type_invariant(&self);
        }
        self.raw
    }
}

/// Durable identity of a collection.
#[derive(Clone, Copy, Debug, PartialEq, Eq, Structural)]
pub struct CollectionId {
    raw: u64,
}

impl View for CollectionId {
    type V = u64;

    closed spec fn view(&self) -> u64 {
        self.raw
    }
}

impl CollectionId {
    #[verifier::type_invariant]
    spec fn positive(self) -> bool {
        self.raw > 0
    }

    /// Accepts every identifier but zero.
    pub fn new(raw: u64) -> (r: Result<CollectionId, ModelError>)
        ensures
            raw == 0 ==> r == Err::<CollectionId, ModelError>(ModelError::ZeroIdentifier),
            raw != 0 ==> r is Ok && r->Ok_0@ == raw,
    {
        if raw == 0 {
            Err(ModelError::ZeroIdentifier)
        } else {
            Ok(CollectionId { raw })
        }
    }

    pub fn get(self) -> (raw: u64)
        ensures
            raw == self@,
            raw > 0,
    {
        proof {
            use_type_invariant(&self);
        }
        self.raw
    }

    /// Identifiers are equal exactly when their numbers are.
    pub fn same(self, other: CollectionId) -> (b: bool)
        ensures
            b == (self@ == other@),
            b == (self == other),
    {
        self.raw == other.raw
    }
}

/// Identity of a page on its source wiki.
#[derive(Clone, Copy, Debug, PartialEq, Eq, Structural)]
pub struct PageId {
    raw: u64,
}

impl View for PageId {
    type V = u64;

    closed spec fn view(&self) -> u64 {
        self.raw
    }
}

impl PageId {
    #[verifier::type_invariant]
    spec fn positive(self) -> bool {
        self.raw > 0
    }

    /// Accepts every identifier but zero.
    pub fn new(raw: u64) -> (r: Result<PageId, ModelError>)
        ensures
            raw == 0 ==> r == Err::<PageId, ModelError>(ModelError::ZeroIdentifier),
            raw != 0 ==> r is Ok && r->Ok_0@ == raw,
    {
        if raw == 0 {
            Err(ModelError::ZeroIdentifier)
        } else {
            Ok(PageId { raw })
        }
    }

    pub fn get(self) -> (raw: u64)
        ensures
            raw == self@,
            raw > 0,
    {
        proof {
            use_type_invariant(&self);
        }
        self.raw
    }
}

/// A positive 32-bit number.
#[derive(Clone, Copy, Debug, PartialEq, Eq, Structural)]
pub struct PositiveU32 {
    value: u32,
}

impl View for PositiveU32 {
    type V = u32;

    closed spec fn view(&self) -> u32 {
        self.value
    }
}

impl PositiveU32 {
    #[verifier::type_invariant]
    spec fn positive(self) -> bool {
        self.value > 0
    }

    pub fn new(value: u32) -> (r: Option<PositiveU32>)
        ensures
            value == 0 ==> r is None,
            value != 0 ==> r is Some && r->0@ == value,
    {
        if value == 0 {
            None
        } else {
            Some(PositiveU32 { value })
        }
    }

    pub fn get(self) -> (value: u32)
        ensures
            value == self@,
            value > 0,
    {
        proof {
            use_type_invariant(&self);
        }
        self.value
    }
}

/// A positive 64-bit number.
#[derive(Clone, Copy, Debug, PartialEq, Eq, Structural)]
pub struct PositiveU64 {
    value: u64,
}

impl View for PositiveU64 {
    type V = u64;

    closed spec fn view(&self) -> u64 {
        self.value
    }
}

impl PositiveU64 {
    #[verifier::type_invariant]
    spec fn positive(self) -> bool {
        self.value > 0
    }

    pub fn new(value: u64) -> (r: Option<PositiveU64>)
        ensures
            value == 0 ==> r is None,
            value != 0 ==> r is Some && r->0@ == value,
    {
        if value == 0 {
            None
        } else {
            Some(PositiveU64 { value })
        }
    }

    pub fn get(self) -> (value: u64)
        ensures
            value == self@,
            value > 0,
    {
        proof {
            use_type_invariant(&self);
        }
        self.value
    }
}

/// Seconds since the Unix epoch; negative values lie before it.
#[derive(Clone, Copy, Debug, PartialEq, Eq, Structural)]
pub struct UnixTimestamp {
    pub seconds: i64,
}

impl UnixTimestamp {
    pub fn from_seconds(seconds: i64) -> (t: UnixTimestamp)
        ensures
            t == (UnixTimestamp { seconds }),
    {
        UnixTimestamp { seconds }
    }

    pub fn as_seconds(self) -> (seconds: i64)
        ensures
            seconds == self.seconds,
    {
        self.seconds
    }
}

/// The title of one page; never blank.
#[derive(Debug, PartialEq, Eq)]
pub struct PageTitle {
    text: String,
}

impl View for PageTitle {
    type V = Seq<char>;

    closed spec fn view(&self) -> Seq<char> {
        self.text@
    }
}

/// What a page title may be.
pub open spec fn valid_title(title: Seq<char>) -> bool {
    trimmed(title).len() > 0
}

impl PageTitle {
    #[verifier::type_invariant]
    spec fn not_blank(self) -> bool {
        valid_title(self.text@)
    }

    /// Accepts every text that is not blank, unchanged.
    pub fn new(text: &str) -> (r: Result<PageTitle, ModelError>)
        ensures
            match r {
                Ok(title) => valid_title(text@) && title@ == text@,
                Err(error) => !valid_title(text@) && error == ModelError::BlankTitle,
            },
    {
        if trim(text).as_str().is_empty() {
            Err(ModelError::BlankTitle)
        } else {
            Ok(PageTitle { text: text.to_owned() })
        }
    }

    pub fn as_str(&self) -> (text: &str)
        ensures
            text@ == self@,
            valid_title(self@),
    {
        proof {
            use_type_invariant(self);
        }
        self.text.as_str()
    }

    /// Titles are the same when their characters are.
    pub fn same(&self, other: &PageTitle) -> (b: bool)
        ensures
            b == (self@ == other@),
    {
        self.text == other.text
    }
}

impl Clone for PageTitle {
    fn clone(&self) -> (copy: Self)
        ensures
            copy@ == self@,
    {
        proof {
            use_type_invariant(self);
        }
        PageTitle { text: self.text.clone() }
    }
}

/// The texts of a sequence of titles.
pub open spec fn title_texts(titles: Seq<PageTitle>) -> Seq<Seq<char>> {
    titles.map_values(|title: PageTitle| title@)
}

/// A non-empty selection of pairwise different titles, in the order first given.
#[derive(Debug, PartialEq, Eq)]
pub struct TitleSelection {
    titles: Vec<PageTitle>,
}

impl View for TitleSelection {
    type V = Seq<Seq<char>>;

    closed spec fn view(&self) -> Seq<Seq<char>> {
        title_texts(self.titles@)
    }
}

/// The first occurrences of a sequence, in order.
pub open spec fn first_occurrences(texts: Seq<Seq<char>>) -> Seq<Seq<char>>
    decreases texts.len(),
{
    if texts.len() == 0 {
        texts
    } else {
        let before = first_occurrences(texts.drop_last());
        if before.contains(texts.last()) {
            before
        } else {
            before.push(texts.last())
        }
    }
}

impl TitleSelection {
    #[verifier::type_invariant]
    spec fn selected(self) -> bool {
        self.titles@.len() > 0 && title_texts(self.titles@).no_duplicates()
    }

    /// Keeps the first occurrence of each title.
    pub fn new(titles: Vec<PageTitle>) -> (r: Result<TitleSelection, ModelError>)
        ensures
            match r {
                Ok(selection) => titles@.len() > 0 && selection@ == first_occurrences(
                    title_texts(titles@),
                ),
                Err(error) => titles@.len() == 0 && error == ModelError::EmptySelection,
            },
    {
        if titles.len() == 0 {
            return Err(ModelError::EmptySelection);
        }
        let mut kept: Vec<PageTitle> = Vec::new();
        let mut i: usize = 0;
        let ghost texts = title_texts(titles@);
        while i < titles.len()
            invariant
                i <= titles@.len(),
                titles@.len() > 0,
                texts == title_texts(titles@),
                title_texts(kept@) == first_occurrences(texts.take(i as int)),
                title_texts(kept@).no_duplicates(),
                i > 0 ==> kept@.len() > 0,
            decreases titles@.len() - i,
        {
            let known: bool = contains_title(&kept, &titles[i]);
            proof {
                assert(texts.take(i + 1).drop_last() =~= texts.take(i as int));
                assert(texts.take(i + 1).last() == titles@[i as int]@);
            }
            if !known {
                let copy = titles[i].clone();
                let ghost before = kept@;
                kept.push(copy);
                proof {
                    assert(title_texts(kept@) =~= title_texts(before).push(titles@[i as int]@));
                }
            } else {
                assert(kept@.len() > 0);
            }
            i = i + 1;
        }
        proof {
            assert(texts.take(i as int) =~= texts);
        }
        Ok(TitleSelection { titles: kept })
    }

    pub fn len(&self) -> (n: usize)
        ensures
            n == self@.len(),
            n > 0,
    {
        proof {
            use_type_invariant(self);
        }
        self.titles.len()
    }

    pub fn get(&self, index: usize) -> (title: &PageTitle)
        requires
            index < self@.len(),
        ensures
            title@ == self@[index as int],
    {
        &self.titles[index]
    }
}

impl Clone for TitleSelection {
    fn clone(&self) -> (copy: Self)
        ensures
            copy@ == self@,
    {
        proof {
            use_type_invariant(self);
        }
        let titles = clone_titles(&self.titles);
        proof {
            assert(title_texts(titles@).len() == titles@.len());
        }
        TitleSelection { titles }
    }
}

/// Tells whether a title occurs in a list.
pub fn contains_title(titles: &Vec<PageTitle>, title: &PageTitle) -> (b: bool)
    ensures
        b == title_texts(titles@).contains(title@),
{
    let mut i: usize = 0;
    while i < titles.len()
        invariant
            i <= titles@.len(),
            forall|k: int| 0 <= k < i ==> #[trigger] title_texts(titles@)[k] != title@,
        decreases titles@.len() - i,
    {
        if titles[i].same(title) {
            assert(title_texts(titles@)[i as int] == title@);
            return true;
        }
        i = i + 1;
    }
    false
}

/// Copies a list of titles.
pub fn clone_titles(titles: &Vec<PageTitle>) -> (copy: Vec<PageTitle>)
    ensures
        title_texts(copy@) == title_texts(titles@),
{
    let mut copy: Vec<PageTitle> = Vec::new();
    let mut i: usize = 0;
    while i < titles.len()
        invariant
            i <= titles@.len(),
            title_texts(copy@) == title_texts(titles@).take(i as int),
        decreases titles@.len() - i,
    {
        let ghost before = copy@;
        let title = titles[i].clone();
        copy.push(title);
        proof {
            assert(title_texts(copy@) =~= title_texts(before).push(titles@[i as int]@));
            assert(title_texts(copy@) =~= title_texts(titles@).take(i + 1));
        }
        i = i + 1;
    }
    proof {
        assert(title_texts(titles@).take(i as int) =~= title_texts(titles@));
    }
    copy
}

/// How the pages of a collection are chosen.
#[derive(Debug, PartialEq, Eq)]
pub enum CollectionRule {
    /// Every article of the edition; only a dump bootstrap can resolve it.
    WholeMainNamespace,
    ExplicitTitles(TitleSelection),
    TitleList(TitleSelection),
    Category { title: PageTitle, recursion_depth: u16 },
}

/// Plain view of a rule.
pub enum RuleView {
    WholeMainNamespace,
    ExplicitTitles(Seq<Seq<char>>),
    TitleList(Seq<Seq<char>>),
    Category { title: Seq<char>, recursion_depth: u16 },
}

impl View for CollectionRule {
    type V = RuleView;

    open spec fn view(&self) -> RuleView {
        match self {
            CollectionRule::WholeMainNamespace => RuleView::WholeMainNamespace,
            CollectionRule::ExplicitTitles(titles) => RuleView::ExplicitTitles(titles@),
            CollectionRule::TitleList(titles) => RuleView::TitleList(titles@),
            CollectionRule::Category { title, recursion_depth } => RuleView::Category {
                title: title@,
                recursion_depth: *recursion_depth,
            },
        }
    }
}

impl Clone for CollectionRule {
    fn clone(&self) -> (copy: Self)
        ensures
            copy@ == self@,
    {
        match self {
            CollectionRule::WholeMainNamespace => CollectionRule::WholeMainNamespace,
            CollectionRule::ExplicitTitles(titles) => CollectionRule::ExplicitTitles(
                titles.clone(),
            ),
            CollectionRule::TitleList(titles) => CollectionRule::TitleList(titles.clone()),
            CollectionRule::Category { title, recursion_depth } => CollectionRule::Category {
                title: title.clone(),
                recursion_depth: *recursion_depth,
            },
        }
    }
}

/// Why a page belongs to a collection.
#[derive(Debug, PartialEq, Eq)]
pub enum InclusionReason {
    WholeMainNamespace,
    ExplicitTitle(PageTitle),
    TitleList(PageTitle),
    Category { category: PageTitle, depth: u16 },
}

/// Plain view of an inclusion reason.
pub enum ReasonView {
    WholeMainNamespace,
    ExplicitTitle(Seq<char>),
    TitleList(Seq<char>),
    Category { category: Seq<char>, depth: u16 },
}

impl View for InclusionReason {
    type V = ReasonView;

    open spec fn view(&self) -> ReasonView {
        match self {
            InclusionReason::WholeMainNamespace => ReasonView::WholeMainNamespace,
            InclusionReason::ExplicitTitle(title) => ReasonView::ExplicitTitle(title@),
            InclusionReason::TitleList(title) => ReasonView::TitleList(title@),
            InclusionReason::Category { category, depth } => ReasonView::Category {
                category: category@,
                depth: *depth,
            },
        }
    }
}

impl Clone for InclusionReason {
    fn clone(&self) -> (copy: Self)
        ensures
            copy@ == self@,
    {
        match self {
            InclusionReason::WholeMainNamespace => InclusionReason::WholeMainNamespace,
            InclusionReason::ExplicitTitle(title) => InclusionReason::ExplicitTitle(title.clone()),
            InclusionReason::TitleList(title) => InclusionReason::TitleList(title.clone()),
            InclusionReason::Category { category, depth } => InclusionReason::Category {
                category: category.clone(),
                depth: *depth,
            },
        }
    }
}

/// One resolved page of a collection preview.
#[derive(Debug, PartialEq, Eq)]
pub struct ResolvedCollectionMember {
    pub page_id: PageId,
    pub namespace: i32,
    pub title: PageTitle,
    pub inclusion_reason: InclusionReason,
}

/// Plain view of a resolved page.
pub struct MemberView {
    pub page_id: u64,
    pub namespace: i32,
    pub title: Seq<char>,
    pub reason: ReasonView,
}

impl View for ResolvedCollectionMember {
    type V = MemberView;

    open spec fn view(&self) -> MemberView {
        MemberView {
            page_id: self.page_id@,
            namespace: self.namespace,
            title: self.title@,
            reason: self.inclusion_reason@,
        }
    }
}

impl Clone for ResolvedCollectionMember {
    fn clone(&self) -> (copy: Self)
        ensures
            copy@ == self@,
    {
        ResolvedCollectionMember {
            page_id: self.page_id,
            namespace: self.namespace,
            title: self.title.clone(),
            inclusion_reason: self.inclusion_reason.clone(),
        }
    }
}

/// The views of a sequence of members.
pub open spec fn member_views(members: Seq<ResolvedCollectionMember>) -> Seq<MemberView> {
    members.map_values(|member: ResolvedCollectionMember| member@)
}

/// Copies a list of members.
pub fn clone_members(members: &Vec<ResolvedCollectionMember>) -> (copy: Vec<
    ResolvedCollectionMember,
>)
    ensures
        member_views(copy@) == member_views(members@),
{
    let mut copy: Vec<ResolvedCollectionMember> = Vec::new();
    let mut i: usize = 0;
    while i < members.len()
        invariant
            i <= members@.len(),
            member_views(copy@) == member_views(members@).take(i as int),
        decreases members@.len() - i,
    {
        let ghost before = copy@;
        let member = members[i].clone();
        copy.push(member);
        proof {
            assert(member_views(copy@) =~= member_views(before).push(members@[i as int]@));
            assert(member_views(copy@) =~= member_views(members@).take(i + 1));
        }
        i = i + 1;
    }
    proof {
        assert(member_views(members@).take(i as int) =~= member_views(members@));
    }
    copy
}

/// A complete resolution of a rule against its source.
#[derive(Debug, PartialEq, Eq)]
pub struct CollectionSelectionPreview {
    pub rule: CollectionRule,
    pub members: Vec<ResolvedCollectionMember>,
    pub missing_titles: Vec<PageTitle>,
    pub predicted_canonical_bytes: Option<u64>,
    pub category_batches: usize,
}

/// Plain view of a selection preview.
pub struct PreviewView {
    pub rule: RuleView,
    pub members: Seq<MemberView>,
    pub missing_titles: Seq<Seq<char>>,
    pub predicted_canonical_bytes: Option<u64>,
    pub category_batches: usize,
}

impl View for CollectionSelectionPreview {
    type V = PreviewView;

    open spec fn view(&self) -> PreviewView {
        PreviewView {
            rule: self.rule@,
            members: member_views(self.members@),
            missing_titles: title_texts(self.missing_titles@),
            predicted_canonical_bytes: self.predicted_canonical_bytes,
            category_batches: self.category_batches,
        }
    }
}

impl Clone for CollectionSelectionPreview {
    fn clone(&self) -> (copy: Self)
        ensures
            copy@ == self@,
    {
        CollectionSelectionPreview {
            rule: self.rule.clone(),
            members: clone_members(&self.members),
            missing_titles: clone_titles(&self.missing_titles),
            predicted_canonical_bytes: self.predicted_canonical_bytes,
            category_batches: self.category_batches,
        }
    }
}

/// How much of a page's public history is retained.
#[derive(Clone, Copy, Debug, PartialEq, Eq, Structural)]
pub enum HistoryPolicy {
    CurrentAndFuture,
    LastN(PositiveU32),
    Since(UnixTimestamp),
    Complete,
}

/// Plain view of a history policy.
pub enum HistoryView {
    CurrentAndFuture,
    LastN(u32),
    Since(i64),
    Complete,
}

impl View for HistoryPolicy {
    type V = HistoryView;

    open spec fn view(&self) -> HistoryView {
        match self {
            HistoryPolicy::CurrentAndFuture => HistoryView::CurrentAndFuture,
            HistoryPolicy::LastN(count) => HistoryView::LastN(count@),
            HistoryPolicy::Since(timestamp) => HistoryView::Since(timestamp.seconds),
            HistoryPolicy::Complete => HistoryView::Complete,
        }
    }
}

impl HistoryPolicy {
    /// The last `count` revisions; `count` must be positive.
    pub fn last_n(count: u32) -> (r: Result<HistoryPolicy, ModelError>)
        ensures
            match r {
                Ok(policy) => count > 0 && policy@ == HistoryView::LastN(count),
                Err(error) => count == 0 && error == ModelError::ZeroLimit,
            },
    {
        match PositiveU32::new(count) {
            Some(count) => Ok(HistoryPolicy::LastN(count)),
            None => Err(ModelError::ZeroLimit),
        }
    }
}

/// Optional hard limits of a collection.
#[derive(Clone, Copy, Debug, PartialEq, Eq, Structural)]
pub struct CollectionBudget {
    pages: Option<PositiveU64>,
    bytes: Option<PositiveU64>,
}

/// Plain view of a budget.
pub struct BudgetView {
    pub maximum_pages: Option<u64>,
    pub maximum_bytes: Option<u64>,
}

pub open spec fn positive_value(value: Option<PositiveU64>) -> Option<u64> {
    match value {
        Some(value) => Some(value@),
        None => None,
    }
}

impl View for CollectionBudget {
    type V = BudgetView;

    closed spec fn view(&self) -> BudgetView {
        BudgetView {
            maximum_pages: positive_value(self.pages),
            maximum_bytes: positive_value(self.bytes),
        }
    }
}

/// Known page and byte counts satisfy a budget when neither exceeds its limit.
pub open spec fn budget_permits(budget: BudgetView, pages: u64, bytes: u64) -> bool {
    &&& (budget.maximum_pages matches Some(limit) ==> pages <= limit)
    &&& (budget.maximum_bytes matches Some(limit) ==> bytes <= limit)
}

impl CollectionBudget {
    pub fn unlimited() -> (budget: CollectionBudget)
        ensures
            budget@ == (BudgetView { maximum_pages: None, maximum_bytes: None }),
    {
        CollectionBudget { pages: None, bytes: None }
    }

    pub fn with_maximum_pages(self, pages: u64) -> (r: Result<CollectionBudget, ModelError>)
        ensures
            match r {
                Ok(budget) => pages > 0 && budget@ == (BudgetView {
                    maximum_pages: Some(pages),
                    ..self@
                }),
                Err(error) => pages == 0 && error == ModelError::ZeroLimit,
            },
    {
        match PositiveU64::new(pages) {
            Some(pages) => Ok(CollectionBudget { pages: Some(pages), bytes: self.bytes }),
            None => Err(ModelError::ZeroLimit),
        }
    }

    pub fn with_maximum_bytes(self, bytes: u64) -> (r: Result<CollectionBudget, ModelError>)
        ensures
            match r {
                Ok(budget) => bytes > 0 && budget@ == (BudgetView {
                    maximum_bytes: Some(bytes),
                    ..self@
                }),
                Err(error) => bytes == 0 && error == ModelError::ZeroLimit,
            },
    {
        match PositiveU64::new(bytes) {
            Some(bytes) => Ok(CollectionBudget { pages: self.pages, bytes: Some(bytes) }),
            None => Err(ModelError::ZeroLimit),
        }
    }

    pub fn maximum_pages(self) -> (r: Option<PositiveU64>)
        ensures
            positive_value(r) == self@.maximum_pages,
    {
        self.pages
    }

    pub fn maximum_bytes(self) -> (r: Option<PositiveU64>)
        ensures
            positive_value(r) == self@.maximum_bytes,
    {
        self.bytes
    }

    /// Tells whether page and byte counts satisfy both limits.
    pub fn permits(self, pages: u64, bytes: u64) -> (b: bool)
        ensures
            b == budget_permits(self@, pages, bytes),
    {
        let pages_fit: bool = match self.pages {
            Some(limit) => pages <= limit.get(),
            None => true,
        };
        let bytes_fit: bool = match self.bytes {
            Some(limit) => bytes <= limit.get(),
            None => true,
        };
        pages_fit && bytes_fit
    }
}

/// What happens to pages that leave a dynamic selection.
#[derive(Clone, Copy, Debug, PartialEq, Eq, Structural)]
pub enum CollectionRemovalPolicy {
    StopTrackingRetainHistory,
    KeepTracking,
}

/// Bounds on acquired thumbnails.
#[derive(Clone, Copy, Debug, PartialEq, Eq, Structural)]
pub struct ThumbnailPolicy {
    edge: PositiveU32,
    images: PositiveU32,
    bytes: PositiveU64,
}

/// Plain view of a thumbnail policy.
pub struct ThumbnailView {
    pub maximum_edge_pixels: u32,
    pub maximum_images_per_revision: u32,
    pub maximum_bytes_per_image: u64,
}

impl View for ThumbnailPolicy {
    type V = ThumbnailView;

    closed spec fn view(&self) -> ThumbnailView {
        ThumbnailView {
            maximum_edge_pixels: self.edge@,
            maximum_images_per_revision: self.images@,
            maximum_bytes_per_image: self.bytes@,
        }
    }
}

/// The error that a thumbnail policy with these bounds meets, if any.
pub open spec fn thumbnail_error(edge: u32, images: u32, bytes: u64) -> Option<ModelError> {
    if edge == 0 || images == 0 || bytes == 0 {
        Some(ModelError::ZeroLimit)
    } else if edge > MAX_THUMBNAIL_EDGE_PIXELS {
        Some(ModelError::ThumbnailEdgeTooLarge)
    } else {
        None
    }
}

impl ThumbnailPolicy {
    /// Every bound is positive and the edge has a ceiling.
    pub fn new(edge: u32, images: u32, bytes: u64) -> (r: Result<ThumbnailPolicy, ModelError>)
        ensures
            match r {
                Ok(policy) => thumbnail_error(edge, images, bytes) is None && policy@ == (
                ThumbnailView {
                    maximum_edge_pixels: edge,
                    maximum_images_per_revision: images,
                    maximum_bytes_per_image: bytes,
                }),
                Err(error) => thumbnail_error(edge, images, bytes) == Some(error),
            },
    {
        match (PositiveU32::new(edge), PositiveU32::new(images), PositiveU64::new(bytes)) {
            (Some(e), Some(i), Some(b)) => {
                if edge > MAX_THUMBNAIL_EDGE_PIXELS {
                    Err(ModelError::ThumbnailEdgeTooLarge)
                } else {
                    Ok(ThumbnailPolicy { edge: e, images: i, bytes: b })
                }
            },
            _ => Err(ModelError::ZeroLimit),
        }
    }

    pub fn maximum_edge_pixels(self) -> (r: PositiveU32)
        ensures
            r@ == self@.maximum_edge_pixels,
    {
        self.edge
    }

    pub fn maximum_images_per_revision(self) -> (r: PositiveU32)
        ensures
            r@ == self@.maximum_images_per_revision,
    {
        self.images
    }

    pub fn maximum_bytes_per_image(self) -> (r: PositiveU64)
        ensures
            r@ == self@.maximum_bytes_per_image,
    {
        self.bytes
    }
}

impl Default for ThumbnailPolicy {
    fn default() -> (policy: Self)
        ensures
            policy@ == (ThumbnailView {
                maximum_edge_pixels: 640,
                maximum_images_per_revision: 8,
                maximum_bytes_per_image: 1_048_576,
            }),
    {
        ThumbnailPolicy {
            edge: PositiveU32 { value: 640 },
            images: PositiveU32 { value: 8 },
            bytes: PositiveU64 { value: 1_048_576 },
        }
    }
}

/// Whether and how images are acquired.
#[derive(Clone, Copy, Debug, PartialEq, Eq, Structural)]
pub enum ImagePolicy {
    Off,
    Thumbnails(ThumbnailPolicy),
}

/// Plain view of an image policy.
pub enum ImageView {
    Off,
    Thumbnails(ThumbnailView),
}

impl View for ImagePolicy {
    type V = ImageView;

    open spec fn view(&self) -> ImageView {
        match self {
            ImagePolicy::Off => ImageView::Off,
            ImagePolicy::Thumbnails(policy) => ImageView::Thumbnails(policy@),
        }
    }
}

impl Default for ImagePolicy {
    fn default() -> (policy: Self)
        ensures
            policy == ImagePolicy::Off,
    {
        ImagePolicy::Off
    }
}

/// Seconds between two runs; positive.
#[derive(Clone, Copy, Debug, PartialEq, Eq, Structural)]
pub struct ScheduleInterval {
    value: u32,
}

impl View for ScheduleInterval {
    type V = u32;

    closed spec fn view(&self) -> u32 {
        self.value
    }
}

impl ScheduleInterval {
    #[verifier::type_invariant]
    spec fn in_range(self) -> bool {
        0 < self.value
    }

    pub fn seconds(self) -> (seconds: u32)
        ensures
            seconds == self@,
            0 < seconds,
    {
        proof {
            use_type_invariant(&self);
        }
        self.value
    }
}

/// A time of day in UTC, in seconds after midnight.
#[derive(Clone, Copy, Debug, PartialEq, Eq, Structural)]
pub struct DailyUtcTime {
    value: u32,
}

impl View for DailyUtcTime {
    type V = u32;

    closed spec fn view(&self) -> u32 {
        self.value
    }
}

impl DailyUtcTime {
    #[verifier::type_invariant]
    spec fn in_range(self) -> bool {
        self.value < SECONDS_PER_DAY
    }

    pub fn seconds_after_midnight(self) -> (seconds: u32)
        ensures
            seconds == self@,
            seconds < SECONDS_PER_DAY,
    {
        proof {
            use_type_invariant(&self);
        }
        self.value
    }
}

/// When a collection is synchronized without being asked.
#[derive(Clone, Copy, Debug, PartialEq, Eq, Structural)]
pub enum ScheduleCadence {
    Manual,
    Interval(ScheduleInterval),
    DailyUtc(DailyUtcTime),
}

/// Plain view of a cadence.
pub enum CadenceView {
    Manual,
    Interval(u32),
    DailyUtc(u32),
}

impl View for ScheduleCadence {
    type V = CadenceView;

    open spec fn view(&self) -> CadenceView {
        match self {
            ScheduleCadence::Manual => CadenceView::Manual,
            ScheduleCadence::Interval(interval) => CadenceView::Interval(interval@),
            ScheduleCadence::DailyUtc(time) => CadenceView::DailyUtc(time@),
        }
    }
}

/// The cadences that exist.
pub open spec fn valid_cadence(cadence: CadenceView) -> bool {
    match cadence {
        CadenceView::Manual => true,
        CadenceView::Interval(seconds) => 0 < seconds,
        CadenceView::DailyUtc(seconds) => seconds < SECONDS_PER_DAY,
    }
}

impl ScheduleCadence {
    pub fn interval(seconds: u32) -> (r: Result<ScheduleCadence, ModelError>)
        ensures
            match r {
                Ok(cadence) => valid_cadence(CadenceView::Interval(seconds)) && cadence@
                    == CadenceView::Interval(seconds),
                Err(error) => !valid_cadence(CadenceView::Interval(seconds)) && error
                    == ModelError::ScheduleOutOfRange,
            },
    {
        if seconds == 0 {
            Err(ModelError::ScheduleOutOfRange)
        } else {
            Ok(ScheduleCadence::Interval(ScheduleInterval { value: seconds }))
        }
    }

    pub fn daily_utc(seconds_after_midnight: u32) -> (r: Result<ScheduleCadence, ModelError>)
        ensures
            match r {
                Ok(cadence) => seconds_after_midnight < SECONDS_PER_DAY && cadence@
                    == CadenceView::DailyUtc(seconds_after_midnight),
                Err(error) => seconds_after_midnight >= SECONDS_PER_DAY && error
                    == ModelError::ScheduleOutOfRange,
            },
    {
        if seconds_after_midnight as u64 >= SECONDS_PER_DAY {
            Err(ModelError::ScheduleOutOfRange)
        } else {
            Ok(ScheduleCadence::DailyUtc(DailyUtcTime { value: seconds_after_midnight }))
        }
    }

    /// Every cadence in existence is a valid one.
    pub(crate) fn validity(self)
        ensures
            valid_cadence(self@),
    {
        match self {
            ScheduleCadence::Manual => {},
            ScheduleCadence::Interval(interval) => {
                let _ = interval.seconds();
            },
            ScheduleCadence::DailyUtc(time) => {
                let _ = time.seconds_after_midnight();
            },
        }
    }
}

/// Library-wide limits on network use.
#[derive(Clone, Copy, Debug, PartialEq, Eq, Structural)]
pub struct NetworkTransferPolicy {
    requests: PositiveU32,
    rate: Option<PositiveU64>,
    avoid_metered: bool,
}

/// Plain view of a network policy.
pub struct NetworkView {
    pub max_concurrent_requests: u32,
    pub max_download_bytes_per_second: Option<u64>,
    pub avoid_metered_networks: bool,
}

impl View for NetworkTransferPolicy {
    type V = NetworkView;

    closed spec fn view(&self) -> NetworkView {
        NetworkView {
            max_concurrent_requests: self.requests@,
            max_download_bytes_per_second: positive_value(self.rate),
            avoid_metered_networks: self.avoid_metered,
        }
    }
}

/// The network policies that exist: no limit is zero.
pub open spec fn valid_network(policy: NetworkView) -> bool {
    &&& policy.max_concurrent_requests > 0
    &&& policy.max_download_bytes_per_second != Some(0u64)
}

impl NetworkTransferPolicy {
    pub fn new(requests: u32, rate: Option<u64>, avoid_metered: bool) -> (r: Result<
        NetworkTransferPolicy,
        ModelError,
    >)
        ensures
            ({
                let view = NetworkView {
                    max_concurrent_requests: requests,
                    max_download_bytes_per_second: rate,
                    avoid_metered_networks: avoid_metered,
                };
                match r {
                    Ok(policy) => valid_network(view) && policy@ == view,
                    Err(error) => !valid_network(view) && error == ModelError::ZeroLimit,
                }
            }),
    {
        let requests = match PositiveU32::new(requests) {
            Some(requests) => requests,
            None => return Err(ModelError::ZeroLimit),
        };
        let rate = match rate {
            Some(value) => match PositiveU64::new(value) {
                Some(rate) => Some(rate),
                None => return Err(ModelError::ZeroLimit),
            },
            None => None,
        };
        Ok(NetworkTransferPolicy { requests, rate, avoid_metered })
    }

    pub fn max_concurrent_requests(self) -> (n: u32)
        ensures
            n == self@.max_concurrent_requests,
            n > 0,
    {
        self.requests.get()
    }

    pub fn max_download_bytes_per_second(self) -> (r: Option<u64>)
        ensures
            r == self@.max_download_bytes_per_second,
            r != Some(0u64),
    {
        match self.rate {
            Some(rate) => Some(rate.get()),
            None => None,
        }
    }

    pub fn avoid_metered_networks(self) -> (b: bool)
        ensures
            b == self@.avoid_metered_networks,
    {
        self.avoid_metered
    }
}

impl Default for NetworkTransferPolicy {
    fn default() -> (policy: Self)
        ensures
            policy@ == (NetworkView {
                max_concurrent_requests: 4,
                max_download_bytes_per_second: None,
                avoid_metered_networks: false,
            }),
    {
        NetworkTransferPolicy {
            requests: PositiveU32 { value: 4 },
            rate: None,
            avoid_metered: false,
        }
    }
}

/// An identifier is any number but zero and is read back as it was given.
pub proof fn law_identifiers_are_positive(
    raw: u64,
    wiki: Result<WikiId, ModelError>,
    collection: Result<CollectionId, ModelError>,
    page: Result<PageId, ModelError>,
    read: (u64, u64, u64),
)
    requires
        call_ensures(WikiId::new, (raw,), wiki),
        call_ensures(CollectionId::new, (raw,), collection),
        call_ensures(PageId::new, (raw,), page),
        wiki is Ok ==> call_ensures(WikiId::get, (wiki->Ok_0,), read.0),
        collection is Ok ==> call_ensures(CollectionId::get, (collection->Ok_0,), read.1),
        page is Ok ==> call_ensures(PageId::get, (page->Ok_0,), read.2),
    ensures
        wiki is Ok <==> raw > 0,
        collection is Ok <==> raw > 0,
        page is Ok <==> raw > 0,
        raw > 0 ==> read == (raw, raw, raw),
{
}

/// A title is any text that is not blank, kept as it is.
pub proof fn law_titles_are_not_blank(text: &str, r: Result<PageTitle, ModelError>)
    requires
        call_ensures(PageTitle::new, (text,), r),
    ensures
        r is Ok <==> exists|i: int|
            0 <= i < text@.len() && !is_white_space_spec(#[trigger] text@[i]),
        r matches Ok(title) ==> title@ == text@,
{
    law_only_white_space_trims_to_nothing(text@);
}

proof fn lemma_first_occurrences(texts: Seq<Seq<char>>)
    ensures
        first_occurrences(texts).no_duplicates(),
        forall|text: Seq<char>|
            #![trigger first_occurrences(texts).contains(text)]
            #![trigger texts.contains(text)]
            first_occurrences(texts).contains(text) <==> texts.contains(text),
        texts.no_duplicates() ==> first_occurrences(texts) == texts,
        texts.len() > 0 ==> first_occurrences(texts).len() > 0 && first_occurrences(texts)[0]
            == texts[0],
    decreases texts.len(),
{
    if texts.len() > 0 {
        let rest = texts.drop_last();
        let before = first_occurrences(rest);
        lemma_first_occurrences(rest);
        let last = texts.last();
        let all = first_occurrences(texts);
        assert forall|text: Seq<char>|
            #![trigger all.contains(text)]
            #![trigger texts.contains(text)]
            all.contains(text) <==> texts.contains(text) by {
            if texts.contains(text) {
                let i = texts.index_of(text);
                if i < rest.len() {
                    assert(rest[i] == text);
                    assert(rest.contains(text));
                    assert(before.contains(text));
                    let k = before.index_of(text);
                    assert(all[k] == text);
                } else {
                    assert(text == last);
                    if !before.contains(last) {
                        assert(all[before.len() as int] == text);
                    }
                }
            }
            if all.contains(text) {
                let k = all.index_of(text);
                if k < before.len() {
                    assert(before[k] == text);
                    assert(before.contains(text));
                    assert(rest.contains(text));
                    assert(texts[rest.index_of(text)] == text);
                } else {
                    assert(text == last);
                    assert(texts[texts.len() - 1] == text);
                }
            }
        }
        if texts.no_duplicates() {
            assert(rest.no_duplicates());
            assert(!rest.contains(last)) by {
                if rest.contains(last) {
                    assert(texts[rest.index_of(last)] == texts[texts.len() - 1]);
                }
            }
            assert(before == rest);
            assert(all =~= texts);
        }
    }
}

/// A selection holds every given title once and no other, and leaves titles that differ already
/// as they are.
pub proof fn law_selection_holds_each_title_once(
    titles: Vec<PageTitle>,
    r: Result<TitleSelection, ModelError>,
)
    requires
        call_ensures(TitleSelection::new, (titles,), r),
    ensures
        r is Ok <==> titles@.len() > 0,
        r matches Ok(selection) ==> {
            &&& selection@.no_duplicates()
            &&& forall|i: int|
                0 <= i < titles@.len() ==> selection@.contains((#[trigger] titles@[i])@)
            &&& forall|k: int|
                0 <= k < selection@.len() ==> exists|i: int|
                    0 <= i < titles@.len() && (#[trigger] titles@[i])@ == #[trigger] selection@[k]
            &&& selection@.len() > 0 && selection@[0] == titles@[0]@
            &&& (forall|i: int, j: int|
                0 <= i < j < titles@.len() ==> (#[trigger] titles@[i])@ != (#[trigger] titles@[j])@)
                ==> selection@ == title_texts(titles@)
        },
{
    if let Ok(selection) = r {
        let texts = title_texts(titles@);
        lemma_first_occurrences(texts);
        assert forall|i: int| 0 <= i < titles@.len() implies selection@.contains(
            (#[trigger] titles@[i])@,
        ) by {
            assert(texts[i] == titles@[i]@);
            assert(texts.contains(titles@[i]@));
        }
        assert forall|k: int| 0 <= k < selection@.len() implies exists|i: int|
            0 <= i < titles@.len() && (#[trigger] titles@[i])@ == #[trigger] selection@[k] by {
            assert(selection@.contains(selection@[k]));
            assert(texts.contains(selection@[k]));
            let i = texts.index_of(selection@[k]);
            assert(titles@[i]@ == selection@[k]);
        }
        if forall|i: int, j: int|
            0 <= i < j < titles@.len() ==> (#[trigger] titles@[i])@ != (#[trigger] titles@[j])@ {
            assert forall|i: int, j: int|
                0 <= i < texts.len() && 0 <= j < texts.len() && i != j implies texts[i]
                != texts[j] by {
                let low = if i < j {
                    i
                } else {
                    j
                };
                let high = if i < j {
                    j
                } else {
                    i
                };
                assert(titles@[low]@ != titles@[high]@);
            }
        }
    }
}

/// A budget permits what stays within each limit that was set; setting one limit leaves the
/// other, and without limits everything is permitted.
pub proof fn law_budget_holds_both_limits(
    budget: CollectionBudget,
    limit: u64,
    pages: u64,
    bytes: u64,
    with_pages: Result<CollectionBudget, ModelError>,
    with_bytes: Result<CollectionBudget, ModelError>,
    free: CollectionBudget,
    allowed: (bool, bool, bool, bool),
)
    requires
        call_ensures(CollectionBudget::unlimited, (), free),
        call_ensures(CollectionBudget::with_maximum_pages, (budget, limit), with_pages),
        call_ensures(CollectionBudget::with_maximum_bytes, (budget, limit), with_bytes),
        call_ensures(CollectionBudget::permits, (free, pages, bytes), allowed.0),
        call_ensures(CollectionBudget::permits, (budget, pages, bytes), allowed.1),
        with_pages is Ok ==> call_ensures(
            CollectionBudget::permits,
            (with_pages->Ok_0, pages, bytes),
            allowed.2,
        ),
        with_bytes is Ok ==> call_ensures(
            CollectionBudget::permits,
            (with_bytes->Ok_0, pages, bytes),
            allowed.3,
        ),
    ensures
        allowed.0,
        with_pages is Ok <==> limit > 0,
        with_bytes is Ok <==> limit > 0,
        limit > 0 && pages > limit ==> !allowed.2,
        limit > 0 && bytes > limit ==> !allowed.3,
        limit > 0 && pages <= limit && allowed.1 ==> allowed.2,
        limit > 0 && bytes <= limit && allowed.1 ==> allowed.3,
        limit > 0 && allowed.2 && budget@.maximum_pages is None ==> allowed.1,
        limit > 0 && allowed.3 && budget@.maximum_bytes is None ==> allowed.1,
{
}

/// More than what a budget refuses is refused too.
pub proof fn law_budget_is_monotone(
    budget: CollectionBudget,
    pages: (u64, u64),
    bytes: (u64, u64),
    allowed: (bool, bool),
)
    requires
        pages.0 <= pages.1,
        bytes.0 <= bytes.1,
        call_ensures(CollectionBudget::permits, (budget, pages.0, bytes.0), allowed.0),
        call_ensures(CollectionBudget::permits, (budget, pages.1, bytes.1), allowed.1),
    ensures
        allowed.1 ==> allowed.0,
{
}

/// Thumbnails have three positive bounds, with an edge of at most 4,096 pixels, and keep them.
pub proof fn law_thumbnail_bounds_are_kept(
    edge: u32,
    images: u32,
    bytes: u64,
    r: Result<ThumbnailPolicy, ModelError>,
    read: (PositiveU32, PositiveU32, PositiveU64),
)
    requires
        call_ensures(ThumbnailPolicy::new, (edge, images, bytes), r),
        r is Ok ==> call_ensures(ThumbnailPolicy::maximum_edge_pixels, (r->Ok_0,), read.0),
        r is Ok ==> call_ensures(ThumbnailPolicy::maximum_images_per_revision, (r->Ok_0,), read.1),
        r is Ok ==> call_ensures(ThumbnailPolicy::maximum_bytes_per_image, (r->Ok_0,), read.2),
    ensures
        r is Ok <==> 0 < edge <= 4_096 && images > 0 && bytes > 0,
        r is Ok ==> read.0@ == edge && read.1@ == images && read.2@ == bytes,
{
}

/// An interval is at least a second, a daily time lies within a day, and both are kept.
pub proof fn law_cadences_are_kept(
    seconds: u32,
    interval: Result<ScheduleCadence, ModelError>,
    daily: Result<ScheduleCadence, ModelError>,
)
    requires
        call_ensures(ScheduleCadence::interval, (seconds,), interval),
        call_ensures(ScheduleCadence::daily_utc, (seconds,), daily),
    ensures
        interval is Ok <==> seconds >= 1,
        daily is Ok <==> seconds < 86_400,
        interval matches Ok(cadence) ==> (cadence matches ScheduleCadence::Interval(given) && given@
            == seconds),
        daily matches Ok(cadence) ==> (cadence matches ScheduleCadence::DailyUtc(given) && given@
            == seconds),
{
}

/// A network policy allows at least one request and no rate of zero, and keeps what it was
/// given; a history depth is at least one revision.
pub proof fn law_network_limits_are_kept(
    requests: u32,
    rate: Option<u64>,
    avoid_metered: bool,
    r: Result<NetworkTransferPolicy, ModelError>,
    read: (u32, Option<u64>, bool),
    depth: Result<HistoryPolicy, ModelError>,
)
    requires
        call_ensures(NetworkTransferPolicy::new, (requests, rate, avoid_metered), r),
        r is Ok ==> call_ensures(
            NetworkTransferPolicy::max_concurrent_requests,
            (r->Ok_0,),
            read.0,
        ),
        r is Ok ==> call_ensures(
            NetworkTransferPolicy::max_download_bytes_per_second,
            (r->Ok_0,),
            read.1,
        ),
        r is Ok ==> call_ensures(
            NetworkTransferPolicy::avoid_metered_networks,
            (r->Ok_0,),
            read.2,
        ),
        call_ensures(HistoryPolicy::last_n, (requests,), depth),
    ensures
        r is Ok <==> requests > 0 && rate != Some(0u64),
        r is Ok ==> read == (requests, rate, avoid_metered),
        depth is Ok <==> requests > 0,
        depth matches Ok(policy) ==> (policy matches HistoryPolicy::LastN(count) && count@
            == requests),
{
}

} // verus!
