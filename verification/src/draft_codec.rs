//! Byte contract of a staged collection draft.
//!
//! Version one carries a draft without an image policy, version two carries one at its
//! end. A draft is the concatenation of its head (source, name and rule), its scope
//! (members and missing titles), its policies and, in version two, its image policy.

use vstd::prelude::*;
use vstd::string::*;
use vstd::utf8::*;

use crate::codec::text_field;
use crate::collection::{
    bounds_error, estimate, estimate_error, member_error, members_error, missing_error,
    rule_title_count, text_bytes, CollectionDraft, DraftView, MAX_COLLECTION_NAME_BYTES,
    MAX_RULE_TITLES, MAX_TITLE_BYTES,
};
use crate::error::{failure, OperationError};
use crate::model::{
    member_views, title_texts, CollectionRemovalPolicy, CollectionRule, CollectionSelectionPreview,
    HistoryPolicy, HistoryView, ImagePolicy, ImageView, InclusionReason, MemberView, PageTitle,
    PreviewView, ReasonView, ResolvedCollectionMember, RuleView, TitleSelection,
};
use crate::protocol::MAX_COLLECTION_DRAFT_BYTES;
use crate::text::{decimal, decimal_text};
use crate::wire::{
    be, bits32, bits64, byte_len, lemma_be, lemma_cat2, lemma_cat3, lemma_cat4, lemma_cat5,
    lemma_cat6, lemma_cat_empty, lemma_empty_cat, put_i32, put_i64, put_slice, put_u16, put_u32,
    put_u64, put_u8,
};

verus! {

/// Draft encoding without an image policy.
pub const LEGACY_DRAFT_VERSION: u16 = 1;

/// Draft encoding with an image policy.
pub const DRAFT_VERSION: u16 = 2;

/// First bytes of a draft, `WKCD`.
pub open spec fn draft_magic() -> Seq<u8> {
    seq![0x57u8, 0x4bu8, 0x43u8, 0x44u8]
}

pub open spec fn optional_field(value: Option<u64>) -> Seq<u8> {
    match value {
        Some(value) => be(1, 1) + be(value as nat, 8),
        None => be(0, 1),
    }
}

/// Text fields one after the other.
pub open spec fn titles_bytes(titles: Seq<Seq<char>>) -> Seq<u8>
    decreases titles.len(),
{
    if titles.len() == 0 {
        Seq::empty()
    } else {
        text_field(titles[0]) + titles_bytes(titles.drop_first())
    }
}

/// A rule; there are no bytes for a whole edition.
pub open spec fn rule_bytes(rule: RuleView) -> Seq<u8> {
    match rule {
        RuleView::WholeMainNamespace => Seq::empty(),
        RuleView::ExplicitTitles(titles) => be(1, 1) + be(titles.len(), 4) + titles_bytes(titles),
        RuleView::TitleList(titles) => be(2, 1) + be(titles.len(), 4) + titles_bytes(titles),
        RuleView::Category { title, recursion_depth } => be(3, 1) + text_field(title) + be(
            recursion_depth as nat,
            2,
        ),
    }
}

/// A reason; there are no bytes for a whole edition.
pub open spec fn reason_bytes(reason: ReasonView) -> Seq<u8> {
    match reason {
        ReasonView::WholeMainNamespace => Seq::empty(),
        ReasonView::ExplicitTitle(title) => be(1, 1) + text_field(title),
        ReasonView::TitleList(title) => be(2, 1) + text_field(title),
        ReasonView::Category { category, depth } => be(3, 1) + text_field(category) + be(
            depth as nat,
            2,
        ),
    }
}

pub open spec fn member_bytes(member: MemberView) -> Seq<u8> {
    be(member.page_id as nat, 8) + be(bits32(member.namespace), 4) + text_field(member.title)
        + reason_bytes(member.reason)
}

/// Members one after the other.
pub open spec fn members_bytes(members: Seq<MemberView>) -> Seq<u8>
    decreases members.len(),
{
    if members.len() == 0 {
        Seq::empty()
    } else {
        member_bytes(members[0]) + members_bytes(members.drop_first())
    }
}

pub open spec fn history_bytes(policy: HistoryView) -> Seq<u8> {
    match policy {
        HistoryView::CurrentAndFuture => be(1, 1),
        HistoryView::LastN(count) => be(2, 1) + be(count as nat, 4),
        HistoryView::Since(seconds) => be(3, 1) + be(bits64(seconds), 8),
        HistoryView::Complete => be(4, 1),
    }
}

pub open spec fn removal_tag(policy: CollectionRemovalPolicy) -> u8 {
    match policy {
        CollectionRemovalPolicy::StopTrackingRetainHistory => 1,
        CollectionRemovalPolicy::KeepTracking => 2,
    }
}

pub open spec fn image_bytes(policy: ImageView) -> Seq<u8> {
    match policy {
        ImageView::Off => be(0, 1),
        ImageView::Thumbnails(bounds) => be(1, 1) + be(bounds.maximum_edge_pixels as nat, 4) + be(
            bounds.maximum_images_per_revision as nat,
            4,
        ) + be(bounds.maximum_bytes_per_image as nat, 8),
    }
}

/// The encoding version of a draft with or without an image policy.
pub open spec fn draft_version(image_policy: Option<ImageView>) -> u16 {
    if image_policy is Some {
        DRAFT_VERSION
    } else {
        LEGACY_DRAFT_VERSION
    }
}

/// Magic, version, source, name and rule.
pub open spec fn head_bytes(draft: DraftView, version: u16) -> Seq<u8> {
    draft_magic() + be(version as nat, 2) + be(draft.wiki_id as nat, 8) + text_field(draft.name)
        + rule_bytes(draft.preview.rule)
}

/// Members and missing titles, each after their number.
pub open spec fn scope_bytes(preview: PreviewView) -> Seq<u8> {
    be(preview.members.len(), 4) + members_bytes(preview.members) + be(
        preview.missing_titles.len(),
        4,
    ) + titles_bytes(preview.missing_titles)
}

/// Prediction, history, budget and removal policy.
pub open spec fn policy_bytes(draft: DraftView) -> Seq<u8> {
    optional_field(draft.preview.predicted_canonical_bytes) + be(
        draft.preview.category_batches as nat,
        8,
    ) + history_bytes(draft.history_policy) + optional_field(draft.budget.maximum_pages)
        + optional_field(draft.budget.maximum_bytes) + be(
        removal_tag(draft.removal_policy) as nat,
        1,
    )
}

pub open spec fn image_tail(image_policy: Option<ImageView>) -> Seq<u8> {
    match image_policy {
        Some(policy) => image_bytes(policy),
        None => Seq::empty(),
    }
}

/// The bytes of a draft.
pub open spec fn draft_bytes(draft: DraftView, image_policy: Option<ImageView>) -> Seq<u8> {
    head_bytes(draft, draft_version(image_policy)) + scope_bytes(draft.preview) + policy_bytes(
        draft,
    ) + image_tail(image_policy)
}

/// The draft selects a whole edition somewhere.
pub open spec fn names_whole_edition(preview: PreviewView) -> bool {
    ||| preview.rule is WholeMainNamespace
    ||| exists|i: int|
        0 <= i < preview.members.len() && (#[trigger] preview.members[i]).reason
            is WholeMainNamespace
}

/// Some title of the rule is too long for its field.
pub open spec fn rule_title_too_large(rule: RuleView) -> bool {
    match rule {
        RuleView::WholeMainNamespace => false,
        RuleView::ExplicitTitles(titles) => some_title_too_large(titles),
        RuleView::TitleList(titles) => some_title_too_large(titles),
        RuleView::Category { title, recursion_depth } => text_bytes(title) > MAX_TITLE_BYTES,
    }
}

pub open spec fn some_title_too_large(titles: Seq<Seq<char>>) -> bool {
    exists|i: int| 0 <= i < titles.len() && text_bytes(#[trigger] titles[i]) > MAX_TITLE_BYTES
}

pub open spec fn whole_edition_message() -> Seq<char> {
    "whole-edition collections require the dedicated dump bootstrap operation"@
}

pub open spec fn size_overflow_message() -> Seq<char> {
    "collection draft size overflowed"@
}

pub open spec fn draft_too_large_message(size: nat) -> Seq<char> {
    "encoded collection draft is "@ + decimal(size) + " bytes; maximum is "@ + decimal(
        MAX_COLLECTION_DRAFT_BYTES as nat,
    )
}

/// The position of the first member that names the whole edition, or the number of members.
pub open spec fn edition_position(members: Seq<MemberView>) -> int
    decreases members.len(),
{
    if members.len() == 0 || members[0].reason is WholeMainNamespace {
        0
    } else {
        1 + edition_position(members.drop_first())
    }
}

/// What the members add to a running size, or why that is not known: a member that names the
/// whole edition comes to light once its title was counted.
pub open spec fn members_size(total: nat, members: Seq<MemberView>) -> Result<nat, Seq<char>> {
    let k = edition_position(members);
    if k < members.len() {
        if total + members_bytes(members.take(k)).len() + 12 + text_field(members[k].title).len()
            > usize::MAX {
            Err(size_overflow_message())
        } else {
            Err(whole_edition_message())
        }
    } else if total + members_bytes(members).len() > usize::MAX {
        Err(size_overflow_message())
    } else {
        Ok(total + members_bytes(members).len())
    }
}

/// The size of an encoded draft, or the first reason that there is none: its parts are
/// counted in their order.
pub open spec fn draft_size(draft: DraftView, image_policy: Option<ImageView>) -> Result<
    nat,
    Seq<char>,
> {
    let named = 14 + text_field(draft.name).len();
    let ruled = named + rule_bytes(draft.preview.rule).len() + 4;
    if named > usize::MAX {
        Err(size_overflow_message())
    } else if draft.preview.rule is WholeMainNamespace {
        Err(whole_edition_message())
    } else if ruled > usize::MAX {
        Err(size_overflow_message())
    } else {
        match members_size(ruled, draft.preview.members) {
            Err(message) => Err(message),
            Ok(_) => if draft_bytes(draft, image_policy).len() > usize::MAX {
                Err(size_overflow_message())
            } else {
                Ok(draft_bytes(draft, image_policy).len())
            },
        }
    }
}

/// The encoding of a draft, or the first reason that there is none.
pub open spec fn draft_encoding(draft: DraftView, image_policy: Option<ImageView>) -> Result<
    Seq<u8>,
    Seq<char>,
> {
    let bytes = draft_bytes(draft, image_policy);
    match estimate_error(draft) {
        Some(message) => Err(message),
        None => if names_whole_edition(draft.preview) {
            Err(whole_edition_message())
        } else if bytes.len() > usize::MAX {
            Err(size_overflow_message())
        } else if bytes.len() > MAX_COLLECTION_DRAFT_BYTES {
            Err(draft_too_large_message(bytes.len()))
        } else if rule_title_too_large(draft.preview.rule) {
            Err("collection draft text field is too large"@)
        } else {
            Ok(bytes)
        },
    }
}

pub proof fn lemma_titles_bytes_push(titles: Seq<Seq<char>>, i: int)
    requires
        0 <= i < titles.len(),
    ensures
        titles_bytes(titles.take(i + 1)) == titles_bytes(titles.take(i)) + text_field(titles[i]),
    decreases titles.len(),
{
    if i == 0 {
        assert(titles.take(1).drop_first() =~= titles.take(0));
        assert(titles_bytes(titles.take(1)) =~= titles_bytes(titles.take(0)) + text_field(
            titles[0],
        ));
    } else {
        let tail = titles.drop_first();
        lemma_titles_bytes_push(tail, i - 1);
        assert(titles.take(i + 1).drop_first() =~= tail.take(i));
        assert(titles.take(i).drop_first() =~= tail.take(i - 1));
        lemma_cat2(text_field(titles[0]), titles_bytes(tail.take(i - 1)), text_field(titles[i]));
    }
}

pub proof fn lemma_members_bytes_push(members: Seq<MemberView>, i: int)
    requires
        0 <= i < members.len(),
    ensures
        members_bytes(members.take(i + 1)) == members_bytes(members.take(i)) + member_bytes(
            members[i],
        ),
    decreases members.len(),
{
    if i == 0 {
        assert(members.take(1).drop_first() =~= members.take(0));
        assert(members_bytes(members.take(1)) =~= members_bytes(members.take(0)) + member_bytes(
            members[0],
        ));
    } else {
        let tail = members.drop_first();
        lemma_members_bytes_push(tail, i - 1);
        assert(members.take(i + 1).drop_first() =~= tail.take(i));
        assert(members.take(i).drop_first() =~= tail.take(i - 1));
        lemma_cat2(
            member_bytes(members[0]),
            members_bytes(tail.take(i - 1)),
            member_bytes(members[i]),
        );
    }
}

/// Longer prefixes have longer encodings.
pub proof fn lemma_titles_bytes_grow(titles: Seq<Seq<char>>, i: int, j: int)
    requires
        0 <= i <= j <= titles.len(),
    ensures
        titles_bytes(titles.take(i)).len() <= titles_bytes(titles.take(j)).len(),
    decreases j - i,
{
    if i < j {
        lemma_titles_bytes_grow(titles, i, j - 1);
        lemma_titles_bytes_push(titles, j - 1);
    }
}

pub proof fn lemma_members_bytes_grow(members: Seq<MemberView>, i: int, j: int)
    requires
        0 <= i <= j <= members.len(),
    ensures
        members_bytes(members.take(i)).len() <= members_bytes(members.take(j)).len(),
    decreases j - i,
{
    if i < j {
        lemma_members_bytes_grow(members, i, j - 1);
        lemma_members_bytes_push(members, j - 1);
    }
}

pub proof fn lemma_text_field_len(text: Seq<char>)
    ensures
        text_field(text).len() == 4 + text_bytes(text),
{
    lemma_be(encode_utf8(text).len(), 4);
}

/// Adds to a running size; `None` where it cannot be represented.
pub fn add_size(total: usize, additional: usize) -> (r: Option<usize>)
    ensures
        match r {
            Some(sum) => sum == total + additional,
            None => total + additional > usize::MAX,
        },
{
    total.checked_add(additional)
}

/// The size of a text field.
pub fn encoded_string_size(value: &str) -> (r: Option<usize>)
    ensures
        match r {
            Some(size) => size == text_field(value@).len(),
            None => text_field(value@).len() > usize::MAX,
        },
{
    proof {
        lemma_text_field_len(value@);
    }
    add_size(4, byte_len(value))
}

fn add_text_size(total: usize, value: &str) -> (r: Option<usize>)
    ensures
        match r {
            Some(sum) => sum == total + text_field(value@).len(),
            None => total + text_field(value@).len() > usize::MAX,
        },
{
    match encoded_string_size(value) {
        Some(size) => add_size(total, size),
        None => None,
    }
}

fn add_titles_size(total: usize, titles: &Vec<PageTitle>) -> (r: Option<usize>)
    ensures
        match r {
            Some(sum) => sum == total + titles_bytes(title_texts(titles@)).len(),
            None => total + titles_bytes(title_texts(titles@)).len() > usize::MAX,
        },
{
    let ghost texts = title_texts(titles@);
    let mut size: usize = total;
    let mut i: usize = 0;
    while i < titles.len()
        invariant
            i <= titles@.len(),
            texts == title_texts(titles@),
            size == total + titles_bytes(texts.take(i as int)).len(),
        decreases titles@.len() - i,
    {
        proof {
            lemma_titles_bytes_push(texts, i as int);
            lemma_titles_bytes_grow(texts, i + 1, texts.len() as int);
            assert(texts.take(texts.len() as int) =~= texts);
        }
        match add_text_size(size, titles[i].as_str()) {
            Some(sum) => {
                size = sum;
            },
            None => return None,
        }
        i = i + 1;
    }
    proof {
        assert(texts.take(i as int) =~= texts);
    }
    Some(size)
}

fn add_selection_size(total: usize, titles: &TitleSelection) -> (r: Option<usize>)
    ensures
        match r {
            Some(sum) => sum == total + titles_bytes(titles@).len(),
            None => total + titles_bytes(titles@).len() > usize::MAX,
        },
{
    let ghost texts = titles@;
    let mut size: usize = total;
    let mut i: usize = 0;
    let count: usize = titles.len();
    while i < count
        invariant
            i <= count,
            count == texts.len(),
            texts == titles@,
            size == total + titles_bytes(texts.take(i as int)).len(),
        decreases count - i,
    {
        proof {
            lemma_titles_bytes_push(texts, i as int);
            lemma_titles_bytes_grow(texts, i + 1, texts.len() as int);
            assert(texts.take(texts.len() as int) =~= texts);
        }
        match add_text_size(size, titles.get(i).as_str()) {
            Some(sum) => {
                size = sum;
            },
            None => return None,
        }
        i = i + 1;
    }
    proof {
        assert(texts.take(i as int) =~= texts);
    }
    Some(size)
}

/// Why the size of a draft part is not known.
enum SizeError {
    WholeEdition,
    Overflow,
}

/// What is said of a size that is not known.
spec fn size_message(error: SizeError) -> Seq<char> {
    match error {
        SizeError::WholeEdition => whole_edition_message(),
        SizeError::Overflow => size_overflow_message(),
    }
}

fn size_refusal(error: SizeError) -> (refusal: OperationError)
    ensures
        refusal@ == failure(size_message(error)),
{
    match error {
        SizeError::WholeEdition => OperationError::failed(
            "whole-edition collections require the dedicated dump bootstrap operation",
        ),
        SizeError::Overflow => OperationError::failed("collection draft size overflowed"),
    }
}

/// The size of a rule.
fn encoded_rule_size(rule: &CollectionRule) -> (r: Result<usize, SizeError>)
    ensures
        match r {
            Ok(size) => !(rule is WholeMainNamespace) && size == rule_bytes(rule@).len(),
            Err(SizeError::WholeEdition) => rule is WholeMainNamespace,
            Err(SizeError::Overflow) => !(rule is WholeMainNamespace) && rule_bytes(rule@).len()
                > usize::MAX,
        },
{
    let size: Option<usize> = match rule {
        CollectionRule::WholeMainNamespace => return Err(SizeError::WholeEdition),
        CollectionRule::ExplicitTitles(titles) | CollectionRule::TitleList(titles) => {
            proof {
                lemma_be(1, 1);
                lemma_be(2, 1);
                lemma_be(titles@.len(), 4);
            }
            add_selection_size(5, titles)
        },
        CollectionRule::Category { title, .. } => {
            proof {
                lemma_be(3, 1);
                lemma_be(rule->recursion_depth as nat, 2);
            }
            add_text_size(3, title.as_str())
        },
    };
    match size {
        Some(size) => Ok(size),
        None => Err(SizeError::Overflow),
    }
}

fn add_reason_size(total: usize, reason: &InclusionReason) -> (r: Option<usize>)
    requires
        !(reason is WholeMainNamespace),
    ensures
        match r {
            Some(sum) => sum == total + reason_bytes(reason@).len(),
            None => total + reason_bytes(reason@).len() > usize::MAX,
        },
{
    proof {
        lemma_be(1, 1);
        lemma_be(2, 1);
        lemma_be(3, 1);
    }
    match reason {
        InclusionReason::ExplicitTitle(title) | InclusionReason::TitleList(title) => match add_size(
            total,
            1,
        ) {
            Some(sum) => add_text_size(sum, title.as_str()),
            None => None,
        },
        InclusionReason::Category { category, depth } => {
            proof {
                lemma_be(*depth as nat, 2);
            }
            match add_size(total, 3) {
                Some(sum) => add_text_size(sum, category.as_str()),
                None => None,
            }
        },
        InclusionReason::WholeMainNamespace => Some(total),
    }
}

proof fn lemma_edition_position(members: Seq<MemberView>, i: int)
    requires
        0 <= i <= members.len(),
        forall|k: int| 0 <= k < i ==> !((#[trigger] members[k]).reason is WholeMainNamespace),
    ensures
        i <= edition_position(members) <= members.len(),
        i < members.len() && members[i].reason is WholeMainNamespace ==> edition_position(members)
            == i,
    decreases members.len(),
{
    if members.len() > 0 {
        let rest = members.drop_first();
        if i > 0 {
            assert(!(members[0].reason is WholeMainNamespace));
            assert forall|k: int| 0 <= k < i - 1 implies !((#[trigger] rest[k]).reason
                is WholeMainNamespace) by {
                assert(rest[k] == members[k + 1]);
            }
            lemma_edition_position(rest, i - 1);
        } else {
            lemma_edition_position(rest, 0);
        }
    }
}

fn add_members_size(total: usize, members: &Vec<ResolvedCollectionMember>) -> (r: Result<
    usize,
    SizeError,
>)
    ensures
        ({
            let views = member_views(members@);
            match r {
                Ok(sum) => members_size(total as nat, views) == Ok::<nat, Seq<char>>(sum as nat)
                    && forall|i: int|
                    0 <= i < views.len() ==> !((#[trigger] views[i]).reason is WholeMainNamespace),
                Err(error) => members_size(total as nat, views) == Err::<nat, Seq<char>>(
                    size_message(error),
                ),
            }
        }),
{
    let ghost views = member_views(members@);
    let mut size: usize = total;
    let mut i: usize = 0;
    while i < members.len()
        invariant
            i <= members@.len(),
            views == member_views(members@),
            size == total + members_bytes(views.take(i as int)).len(),
            forall|k: int|
                0 <= k < i ==> !((#[trigger] views[k]).reason is WholeMainNamespace),
        decreases members@.len() - i,
    {
        let member = &members[i];
        assert(views[i as int] == member@);
        proof {
            lemma_members_bytes_push(views, i as int);
            lemma_edition_position(views, i as int);
            if edition_position(views) > i {
                lemma_members_bytes_grow(views, i + 1, edition_position(views));
            }
            assert(views.take(views.len() as int) =~= views);
            lemma_be(member.page_id@ as nat, 8);
            lemma_be(bits32(member.namespace), 4);
        }
        let titled: Option<usize> = match add_size(size, 12) {
            Some(sum) => add_text_size(sum, member.title.as_str()),
            None => None,
        };
        let titled: usize = match titled {
            Some(sum) => sum,
            None => return Err(SizeError::Overflow),
        };
        if let InclusionReason::WholeMainNamespace = &member.inclusion_reason {
            return Err(SizeError::WholeEdition);
        }
        proof {
            lemma_edition_position(views, i + 1);
        }
        match add_reason_size(titled, &member.inclusion_reason) {
            Some(sum) => {
                size = sum;
            },
            None => return Err(SizeError::Overflow),
        }
        i = i + 1;
    }
    proof {
        lemma_edition_position(views, i as int);
        assert(views.take(i as int) =~= views);
    }
    Ok(size)
}

fn optional_size(value: Option<u64>) -> (n: usize)
    ensures
        n == optional_field(value).len(),
        n <= 9,
{
    proof {
        lemma_be(0, 1);
        lemma_be(1, 1);
        if value is Some {
            lemma_be(value->0 as nat, 8);
        }
    }
    match value {
        Some(_) => 9,
        None => 1,
    }
}

fn history_size(policy: HistoryPolicy) -> (n: usize)
    ensures
        n == history_bytes(policy@).len(),
        n <= 9,
{
    proof {
        lemma_be(1, 1);
        lemma_be(2, 1);
        lemma_be(3, 1);
        lemma_be(4, 1);
    }
    match policy {
        HistoryPolicy::CurrentAndFuture | HistoryPolicy::Complete => 1,
        HistoryPolicy::LastN(count) => {
            proof {
                lemma_be(count@ as nat, 4);
            }
            5
        },
        HistoryPolicy::Since(timestamp) => {
            proof {
                lemma_be(bits64(timestamp.seconds), 8);
            }
            9
        },
    }
}

fn image_size(policy: Option<ImagePolicy>) -> (n: usize)
    ensures
        n == image_tail(image_view(policy)).len(),
        n <= 17,
{
    proof {
        lemma_be(0, 1);
        lemma_be(1, 1);
    }
    match policy {
        None => 0,
        Some(ImagePolicy::Off) => 1,
        Some(ImagePolicy::Thumbnails(bounds)) => {
            proof {
                lemma_be(bounds@.maximum_edge_pixels as nat, 4);
                lemma_be(bounds@.maximum_images_per_revision as nat, 4);
                lemma_be(bounds@.maximum_bytes_per_image as nat, 8);
            }
            17
        },
    }
}

/// The view of an optional image policy.
pub open spec fn image_view(policy: Option<ImagePolicy>) -> Option<ImageView> {
    match policy {
        Some(policy) => Some(policy@),
        None => None,
    }
}

proof fn lemma_fixed_sizes(draft: DraftView, version: u16)
    ensures
        head_bytes(draft, version).len() == 14 + text_field(draft.name).len() + rule_bytes(
            draft.preview.rule,
        ).len(),
        scope_bytes(draft.preview).len() == 8 + members_bytes(draft.preview.members).len()
            + titles_bytes(draft.preview.missing_titles).len(),
        policy_bytes(draft).len() == optional_field(draft.preview.predicted_canonical_bytes).len()
            + 9 + history_bytes(draft.history_policy).len() + optional_field(
            draft.budget.maximum_pages,
        ).len() + optional_field(draft.budget.maximum_bytes).len(),
{
    lemma_be(version as nat, 2);
    lemma_be(draft.wiki_id as nat, 8);
    lemma_be(draft.preview.members.len(), 4);
    lemma_be(draft.preview.missing_titles.len(), 4);
    lemma_be(draft.preview.category_batches as nat, 8);
    lemma_be(removal_tag(draft.removal_policy) as nat, 1);
}

fn positive(value: Option<crate::model::PositiveU64>) -> (r: Option<u64>)
    ensures
        r == crate::model::positive_value(value),
{
    match value {
        Some(value) => Some(value.get()),
        None => None,
    }
}

fn draft_size_of(draft: &CollectionDraft, image_policy: Option<ImagePolicy>) -> (r: Result<
    usize,
    SizeError,
>)
    ensures
        match r {
            Ok(size) => draft_size(draft@, image_view(image_policy)) == Ok::<nat, Seq<char>>(
                size as nat,
            ) && !names_whole_edition(draft@.preview),
            Err(error) => draft_size(draft@, image_view(image_policy)) == Err::<nat, Seq<char>>(
                size_message(error),
            ),
        },
{
    proof {
        lemma_fixed_sizes(draft@, draft_version(image_view(image_policy)));
    }
    let named: usize = match add_text_size(14, draft.name.as_str()) {
        Some(size) => size,
        None => return Err(SizeError::Overflow),
    };
    let rule_size: usize = match encoded_rule_size(&draft.preview.rule) {
        Ok(size) => size,
        Err(error) => return Err(error),
    };
    let ruled: Option<usize> = match add_size(named, rule_size) {
        Some(size) => add_size(size, 4),
        None => None,
    };
    let ruled: usize = match ruled {
        Some(size) => size,
        None => return Err(SizeError::Overflow),
    };
    let with_members: usize = match add_members_size(ruled, &draft.preview.members) {
        Ok(size) => size,
        Err(error) => return Err(error),
    };
    let with_titles: Option<usize> = match add_size(with_members, 4) {
        Some(size) => add_titles_size(size, &draft.preview.missing_titles),
        None => None,
    };
    let rest: usize = optional_size(draft.preview.predicted_canonical_bytes) + 9 + history_size(
        draft.history_policy,
    ) + optional_size(positive(draft.budget.maximum_pages())) + optional_size(
        positive(draft.budget.maximum_bytes()),
    ) + image_size(image_policy);
    let whole: Option<usize> = match with_titles {
        Some(size) => add_size(size, rest),
        None => None,
    };
    match whole {
        Some(size) => Ok(size),
        None => Err(SizeError::Overflow),
    }
}

/// The exact size of an encoded draft, computed before anything is allocated for it.
pub fn encoded_collection_draft_size(
    draft: &CollectionDraft,
    image_policy: Option<ImagePolicy>,
) -> (r: Result<usize, OperationError>)
    ensures
        match r {
            Ok(size) => draft_size(draft@, image_view(image_policy)) == Ok::<nat, Seq<char>>(
                size as nat,
            ) && !names_whole_edition(draft@.preview),
            Err(error) => draft_size(draft@, image_view(image_policy)) is Err && error@ == failure(
                draft_size(draft@, image_view(image_policy))->Err_0,
            ),
        },
{
    match draft_size_of(draft, image_policy) {
        Ok(size) => Ok(size),
        Err(error) => Err(size_refusal(error)),
    }
}

fn put_field(bytes: &mut Vec<u8>, value: &str)
    requires
        text_bytes(value@) <= u32::MAX,
    ensures
        final(bytes)@ == old(bytes)@ + text_field(value@),
{
    put_u32(bytes, byte_len(value) as u32);
    put_slice(bytes, value.as_bytes());
    proof {
        assert(bytes@ =~= old(bytes)@ + text_field(value@));
    }
}

/// Appends a text field of at most `maximum` bytes.
pub fn put_draft_text(bytes: &mut Vec<u8>, value: &str, maximum: usize) -> (r: Result<
    (),
    OperationError,
>)
    requires
        maximum <= u32::MAX,
    ensures
        match r {
            Ok(()) => text_bytes(value@) <= maximum && final(bytes)@ == old(bytes)@ + text_field(
                value@,
            ),
            Err(error) => text_bytes(value@) > maximum && error@ == failure(
                "collection draft text field is too large"@,
            ),
        },
{
    if byte_len(value) > maximum {
        return Err(OperationError::failed("collection draft text field is too large"));
    }
    put_field(bytes, value);
    Ok(())
}

fn put_selection(bytes: &mut Vec<u8>, titles: &TitleSelection) -> (r: Result<(), OperationError>)
    ensures
        match r {
            Ok(()) => !some_title_too_large(titles@) && final(bytes)@ == old(bytes)@
                + titles_bytes(titles@),
            Err(error) => some_title_too_large(titles@) && error@ == failure(
                "collection draft text field is too large"@,
            ),
        },
{
    let ghost texts = titles@;
    let count: usize = titles.len();
    let mut i: usize = 0;
    proof {
        assert(bytes@ =~= old(bytes)@ + titles_bytes(texts.take(0)));
    }
    while i < count
        invariant
            i <= count,
            count == texts.len(),
            texts == titles@,
            bytes@ == old(bytes)@ + titles_bytes(texts.take(i as int)),
            forall|k: int| 0 <= k < i ==> text_bytes(#[trigger] texts[k]) <= MAX_TITLE_BYTES,
        decreases count - i,
    {
        put_draft_text(bytes, titles.get(i).as_str(), MAX_TITLE_BYTES)?;
        proof {
            lemma_titles_bytes_push(texts, i as int);
            lemma_cat2(old(bytes)@, titles_bytes(texts.take(i as int)), text_field(texts[i as int]));
        }
        i = i + 1;
    }
    proof {
        assert(texts.take(i as int) =~= texts);
    }
    Ok(())
}

/// Appends a rule.
pub fn encode_rule(bytes: &mut Vec<u8>, rule: &CollectionRule) -> (r: Result<(), OperationError>)
    requires
        rule_title_count(rule@) <= MAX_RULE_TITLES,
    ensures
        match r {
            Ok(()) => !(rule is WholeMainNamespace) && !rule_title_too_large(rule@)
                && final(bytes)@ == old(bytes)@ + rule_bytes(rule@),
            Err(error) => if rule is WholeMainNamespace {
                error@ == failure(whole_edition_message())
            } else {
                rule_title_too_large(rule@) && error@ == failure(
                    "collection draft text field is too large"@,
                )
            },
        },
{
    match rule {
        CollectionRule::WholeMainNamespace => return Err(
            OperationError::failed(
                "whole-edition collections require the dedicated dump bootstrap operation",
            ),
        ),
        CollectionRule::ExplicitTitles(titles) => {
            put_u8(bytes, 1);
            put_u32(bytes, titles.len() as u32);
            put_selection(bytes, titles)?;
        },
        CollectionRule::TitleList(titles) => {
            put_u8(bytes, 2);
            put_u32(bytes, titles.len() as u32);
            put_selection(bytes, titles)?;
        },
        CollectionRule::Category { title, recursion_depth } => {
            put_u8(bytes, 3);
            put_draft_text(bytes, title.as_str(), MAX_TITLE_BYTES)?;
            put_u16(bytes, *recursion_depth);
        },
    }
    proof {
        assert(bytes@ =~= old(bytes)@ + rule_bytes(rule@));
    }
    Ok(())
}

/// The title that a reason names is short enough for its field.
pub open spec fn reason_encodable(reason: ReasonView) -> bool {
    match reason {
        ReasonView::WholeMainNamespace => false,
        ReasonView::ExplicitTitle(title) => text_bytes(title) <= MAX_TITLE_BYTES,
        ReasonView::TitleList(title) => text_bytes(title) <= MAX_TITLE_BYTES,
        ReasonView::Category { category, depth } => text_bytes(category) <= MAX_TITLE_BYTES,
    }
}

/// The titles of a member are short enough for their fields.
pub open spec fn member_encodable(member: MemberView) -> bool {
    text_bytes(member.title) <= MAX_TITLE_BYTES && reason_encodable(member.reason)
}

/// Appends an inclusion reason.
pub fn encode_inclusion_reason(bytes: &mut Vec<u8>, reason: &InclusionReason)
    requires
        reason_encodable(reason@),
    ensures
        final(bytes)@ == old(bytes)@ + reason_bytes(reason@),
{
    match reason {
        InclusionReason::WholeMainNamespace => {},
        InclusionReason::ExplicitTitle(title) => {
            put_u8(bytes, 1);
            put_field(bytes, title.as_str());
        },
        InclusionReason::TitleList(title) => {
            put_u8(bytes, 2);
            put_field(bytes, title.as_str());
        },
        InclusionReason::Category { category, depth } => {
            put_u8(bytes, 3);
            put_field(bytes, category.as_str());
            put_u16(bytes, *depth);
        },
    }
    proof {
        assert(bytes@ =~= old(bytes)@ + reason_bytes(reason@));
    }
}

fn put_member(bytes: &mut Vec<u8>, member: &ResolvedCollectionMember)
    requires
        member_encodable(member@),
    ensures
        final(bytes)@ == old(bytes)@ + member_bytes(member@),
{
    put_u64(bytes, member.page_id.get());
    put_i32(bytes, member.namespace);
    put_field(bytes, member.title.as_str());
    encode_inclusion_reason(bytes, &member.inclusion_reason);
    proof {
        lemma_cat4(
            old(bytes)@,
            be(member@.page_id as nat, 8),
            be(bits32(member@.namespace), 4),
            text_field(member@.title),
            reason_bytes(member@.reason),
        );
        lemma_cat3(
            be(member@.page_id as nat, 8),
            be(bits32(member@.namespace), 4),
            text_field(member@.title),
            reason_bytes(member@.reason),
        );
    }
}

fn put_members(bytes: &mut Vec<u8>, members: &Vec<ResolvedCollectionMember>)
    requires
        forall|i: int|
            0 <= i < members@.len() ==> member_encodable(#[trigger] member_views(members@)[i]),
    ensures
        final(bytes)@ == old(bytes)@ + members_bytes(member_views(members@)),
{
    let ghost views = member_views(members@);
    let mut i: usize = 0;
    proof {
        assert(bytes@ =~= old(bytes)@ + members_bytes(views.take(0)));
    }
    while i < members.len()
        invariant
            i <= members@.len(),
            views == member_views(members@),
            forall|k: int| 0 <= k < members@.len() ==> member_encodable(#[trigger] views[k]),
            bytes@ == old(bytes)@ + members_bytes(views.take(i as int)),
        decreases members@.len() - i,
    {
        assert(views[i as int] == members@[i as int]@);
        put_member(bytes, &members[i]);
        proof {
            lemma_members_bytes_push(views, i as int);
            lemma_cat2(
                old(bytes)@,
                members_bytes(views.take(i as int)),
                member_bytes(views[i as int]),
            );
        }
        i = i + 1;
    }
    proof {
        assert(views.take(i as int) =~= views);
    }
}

fn put_titles(bytes: &mut Vec<u8>, titles: &Vec<PageTitle>)
    requires
        forall|i: int|
            0 <= i < titles@.len() ==> text_bytes(#[trigger] title_texts(titles@)[i])
                <= MAX_TITLE_BYTES,
    ensures
        final(bytes)@ == old(bytes)@ + titles_bytes(title_texts(titles@)),
{
    let ghost texts = title_texts(titles@);
    let mut i: usize = 0;
    proof {
        assert(bytes@ =~= old(bytes)@ + titles_bytes(texts.take(0)));
    }
    while i < titles.len()
        invariant
            i <= titles@.len(),
            texts == title_texts(titles@),
            forall|k: int|
                0 <= k < titles@.len() ==> text_bytes(#[trigger] texts[k]) <= MAX_TITLE_BYTES,
            bytes@ == old(bytes)@ + titles_bytes(texts.take(i as int)),
        decreases titles@.len() - i,
    {
        assert(texts[i as int] == titles@[i as int]@);
        put_field(bytes, titles[i].as_str());
        proof {
            lemma_titles_bytes_push(texts, i as int);
            lemma_cat2(old(bytes)@, titles_bytes(texts.take(i as int)), text_field(texts[i as int]));
        }
        i = i + 1;
    }
    proof {
        assert(texts.take(i as int) =~= texts);
    }
}

fn put_optional_u64(bytes: &mut Vec<u8>, value: Option<u64>)
    ensures
        final(bytes)@ == old(bytes)@ + optional_field(value),
{
    match value {
        Some(value) => {
            put_u8(bytes, 1);
            put_u64(bytes, value);
        },
        None => put_u8(bytes, 0),
    }
    proof {
        assert(bytes@ =~= old(bytes)@ + optional_field(value));
    }
}

/// Appends a history policy.
pub fn encode_history_policy(bytes: &mut Vec<u8>, policy: HistoryPolicy)
    ensures
        final(bytes)@ == old(bytes)@ + history_bytes(policy@),
{
    match policy {
        HistoryPolicy::CurrentAndFuture => put_u8(bytes, 1),
        HistoryPolicy::LastN(count) => {
            put_u8(bytes, 2);
            put_u32(bytes, count.get());
        },
        HistoryPolicy::Since(timestamp) => {
            put_u8(bytes, 3);
            put_i64(bytes, timestamp.as_seconds());
        },
        HistoryPolicy::Complete => put_u8(bytes, 4),
    }
    proof {
        assert(bytes@ =~= old(bytes)@ + history_bytes(policy@));
    }
}

/// Appends an image policy.
pub fn encode_image_policy(bytes: &mut Vec<u8>, policy: ImagePolicy)
    ensures
        final(bytes)@ == old(bytes)@ + image_bytes(policy@),
{
    match policy {
        ImagePolicy::Off => put_u8(bytes, 0),
        ImagePolicy::Thumbnails(bounds) => {
            put_u8(bytes, 1);
            put_u32(bytes, bounds.maximum_edge_pixels().get());
            put_u32(bytes, bounds.maximum_images_per_revision().get());
            put_u64(bytes, bounds.maximum_bytes_per_image().get());
        },
    }
    proof {
        assert(bytes@ =~= old(bytes)@ + image_bytes(policy@));
    }
}

fn put_head(bytes: &mut Vec<u8>, draft: &CollectionDraft, version: u16) -> (r: Result<
    (),
    OperationError,
>)
    requires
        text_bytes(draft@.name) <= MAX_COLLECTION_NAME_BYTES,
        rule_title_count(draft@.preview.rule) <= MAX_RULE_TITLES,
        !(draft@.preview.rule is WholeMainNamespace),
    ensures
        match r {
            Ok(()) => !rule_title_too_large(draft@.preview.rule) && final(bytes)@ == old(bytes)@
                + head_bytes(draft@, version),
            Err(error) => rule_title_too_large(draft@.preview.rule) && error@ == failure(
                "collection draft text field is too large"@,
            ),
        },
{
    bytes.push(0x57);
    bytes.push(0x4b);
    bytes.push(0x43);
    bytes.push(0x44);
    proof {
        assert(bytes@ =~= old(bytes)@ + draft_magic());
    }
    put_u16(bytes, version);
    put_u64(bytes, draft.wiki_id.get());
    put_draft_text(bytes, draft.name.as_str(), MAX_COLLECTION_NAME_BYTES)?;
    encode_rule(bytes, &draft.preview.rule)?;
    proof {
        lemma_cat5(
            old(bytes)@,
            draft_magic(),
            be(version as nat, 2),
            be(draft@.wiki_id as nat, 8),
            text_field(draft@.name),
            rule_bytes(draft@.preview.rule),
        );
        lemma_cat4(
            draft_magic(),
            be(version as nat, 2),
            be(draft@.wiki_id as nat, 8),
            text_field(draft@.name),
            rule_bytes(draft@.preview.rule),
        );
    }
    Ok(())
}

fn put_scope(bytes: &mut Vec<u8>, preview: &CollectionSelectionPreview)
    requires
        bounds_error(preview@) is None,
        missing_error(preview@.missing_titles) is None,
        forall|i: int|
            0 <= i < preview@.members.len() ==> member_encodable(#[trigger] preview@.members[i]),
    ensures
        final(bytes)@ == old(bytes)@ + scope_bytes(preview@),
{
    put_u32(bytes, preview.members.len() as u32);
    put_members(bytes, &preview.members);
    put_u32(bytes, preview.missing_titles.len() as u32);
    put_titles(bytes, &preview.missing_titles);
    proof {
        let view = preview@;
        lemma_cat4(
            old(bytes)@,
            be(view.members.len(), 4),
            members_bytes(view.members),
            be(view.missing_titles.len(), 4),
            titles_bytes(view.missing_titles),
        );
        lemma_cat3(
            be(view.members.len(), 4),
            members_bytes(view.members),
            be(view.missing_titles.len(), 4),
            titles_bytes(view.missing_titles),
        );
    }
}

fn put_policies(bytes: &mut Vec<u8>, draft: &CollectionDraft)
    ensures
        final(bytes)@ == old(bytes)@ + policy_bytes(draft@),
{
    put_optional_u64(bytes, draft.preview.predicted_canonical_bytes);
    put_u64(bytes, draft.preview.category_batches as u64);
    encode_history_policy(bytes, draft.history_policy);
    put_optional_u64(bytes, positive(draft.budget.maximum_pages()));
    put_optional_u64(bytes, positive(draft.budget.maximum_bytes()));
    match draft.removal_policy {
        CollectionRemovalPolicy::StopTrackingRetainHistory => put_u8(bytes, 1),
        CollectionRemovalPolicy::KeepTracking => put_u8(bytes, 2),
    }
    proof {
        let view = draft@;
        let predicted = optional_field(view.preview.predicted_canonical_bytes);
        let batches = be(view.preview.category_batches as nat, 8);
        let history = history_bytes(view.history_policy);
        let pages = optional_field(view.budget.maximum_pages);
        let limit = optional_field(view.budget.maximum_bytes);
        let removal = be(removal_tag(view.removal_policy) as nat, 1);
        lemma_cat6(old(bytes)@, predicted, batches, history, pages, limit, removal);
        lemma_cat5(predicted, batches, history, pages, limit, removal);
    }
}

/// The titles of members without a violation fit their fields.
pub proof fn lemma_members_encodable(rule: RuleView, members: Seq<MemberView>, count: nat)
    requires
        members_error(rule, members, count) is None,
        !rule_title_too_large(rule),
        count <= members.len(),
    ensures
        forall|i: int| 0 <= i < count ==> member_encodable(#[trigger] members[i]),
    decreases count,
{
    if count > 0 {
        lemma_members_encodable(rule, members, (count - 1) as nat);
        assert(member_error(rule, members, count - 1) is None);
        assert(member_encodable(members[count - 1]));
    }
}

/// Members without a violation name no whole edition.
pub proof fn lemma_no_whole_edition(rule: RuleView, members: Seq<MemberView>, count: nat)
    requires
        members_error(rule, members, count) is None,
    ensures
        forall|i: int|
            0 <= i < count ==> !((#[trigger] members[i]).reason is WholeMainNamespace),
    decreases count,
{
    if count > 0 {
        lemma_no_whole_edition(rule, members, (count - 1) as nat);
        assert(member_error(rule, members, count - 1) is None);
    }
}

/// Encodes a draft, with its image policy where there is one.
pub fn encode_collection_draft_version(
    draft: &CollectionDraft,
    image_policy: Option<ImagePolicy>,
) -> (r: Result<Vec<u8>, OperationError>)
    ensures
        match r {
            Ok(bytes) => draft_encoding(draft@, image_view(image_policy)) == Ok::<
                Seq<u8>,
                Seq<char>,
            >(bytes@),
            Err(error) => draft_encoding(draft@, image_view(image_policy)) is Err && error@
                == failure(draft_encoding(draft@, image_view(image_policy))->Err_0),
        },
{
    estimate(draft)?;
    let ghost view = draft@;
    let ghost image = image_view(image_policy);
    proof {
        lemma_no_whole_edition(
            view.preview.rule,
            view.preview.members,
            view.preview.members.len(),
        );
        lemma_edition_position(view.preview.members, view.preview.members.len() as int);
        lemma_fixed_sizes(view, draft_version(image));
        lemma_be(text_bytes(view.name), 4);
    }
    let size: usize = encoded_collection_draft_size(draft, image_policy)?;
    if size > MAX_COLLECTION_DRAFT_BYTES {
        let message = String::from_str("encoded collection draft is ").concat(
            decimal_text(size as u64).as_str(),
        ).concat(" bytes; maximum is ").concat(
            decimal_text(MAX_COLLECTION_DRAFT_BYTES as u64).as_str(),
        );
        return Err(OperationError::failed(message.as_str()));
    }
    let mut bytes: Vec<u8> = Vec::new();
    put_head(
        &mut bytes,
        draft,
        if image_policy.is_some() {
            DRAFT_VERSION
        } else {
            LEGACY_DRAFT_VERSION
        },
    )?;
    proof {
        lemma_members_encodable(
            view.preview.rule,
            view.preview.members,
            view.preview.members.len(),
        );
        lemma_empty_cat(head_bytes(view, draft_version(image)));
    }
    put_scope(&mut bytes, &draft.preview);
    put_policies(&mut bytes, draft);
    if let Some(policy) = image_policy {
        encode_image_policy(&mut bytes, policy);
    } else {
        proof {
            lemma_cat_empty(bytes@);
        }
    }
    Ok(bytes)
}

/// Encodes a draft without an image policy, which stands for no images.
pub fn encode_collection_draft(draft: &CollectionDraft) -> (r: Result<Vec<u8>, OperationError>)
    ensures
        match r {
            Ok(bytes) => draft_encoding(draft@, None) == Ok::<Seq<u8>, Seq<char>>(bytes@),
            Err(error) => draft_encoding(draft@, None) is Err && error@ == failure(
                draft_encoding(draft@, None)->Err_0,
            ),
        },
{
    encode_collection_draft_version(draft, None)
}

/// Encodes a draft that carries an explicit image policy.
pub fn encode_collection_draft_with_image_policy(
    draft: &CollectionDraft,
    image_policy: ImagePolicy,
) -> (r: Result<Vec<u8>, OperationError>)
    ensures
        match r {
            Ok(bytes) => draft_encoding(draft@, Some(image_policy@)) == Ok::<Seq<u8>, Seq<char>>(
                bytes@,
            ),
            Err(error) => draft_encoding(draft@, Some(image_policy@)) is Err && error@ == failure(
                draft_encoding(draft@, Some(image_policy@))->Err_0,
            ),
        },
{
    encode_collection_draft_version(draft, Some(image_policy))
}

} // verus!
