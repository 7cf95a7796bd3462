//! What encoding and decoding of collection drafts promise together.

use vstd::prelude::*;
use vstd::utf8::*;

use crate::codec::text_field;
use crate::collection::{
    bounds_error, member_error, members_error, missing_error, page_seen, rule_title_count,
    text_bytes, DraftView, MAX_COLLECTION_NAME_BYTES, MAX_PREVIEW_MEMBERS,
    MAX_PREVIEW_MISSING_TITLES, MAX_RULE_TITLES, MAX_TITLE_BYTES,
};
use crate::draft_codec::{
    draft_bytes, draft_encoding, draft_magic, draft_version, head_bytes, history_bytes, image_bytes,
    image_tail, lemma_members_encodable, lemma_no_whole_edition, member_bytes, member_encodable,
    members_bytes, optional_field, policy_bytes, reason_bytes, reason_encodable, removal_tag,
    rule_bytes, rule_title_too_large, scope_bytes, some_title_too_large, titles_bytes,
    DRAFT_VERSION, LEGACY_DRAFT_VERSION,
};
use crate::draft_decoder::{
    draft_decoding, draft_number, draft_structure, next_count, next_draft_text, next_head,
    next_history, next_image, next_member, next_members, next_missing, next_optional_number,
    next_policies, next_reason, next_removal, next_rule, next_scope, next_selection, next_title,
    next_titles, plain_draft_decoding, HeadView, PoliciesView,
};
use crate::model::{
    first_occurrences, thumbnail_error, valid_title, CollectionRemovalPolicy, HistoryView,
    ImageView, MemberView, PreviewView, ReasonView, RuleView,
};
use crate::protocol::MAX_COLLECTION_DRAFT_BYTES;
use crate::wire::{
    be, bits32, bits64, lemma_cat2, lemma_cat3, lemma_cat4, lemma_cat5, lemma_cat6, lemma_cat_empty,
    lemma_number_read, lemma_pow256, lemma_split, lemma_split_number, pow256, signed32, signed64,
    split,
};

verus! {

/// Every title is one.
pub open spec fn valid_titles(titles: Seq<Seq<char>>) -> bool {
    forall|i: int| 0 <= i < titles.len() ==> valid_title(#[trigger] titles[i])
}

/// The rules that exist.
pub open spec fn valid_rule(rule: RuleView) -> bool {
    match rule {
        RuleView::WholeMainNamespace => true,
        RuleView::ExplicitTitles(titles) => titles.len() > 0 && titles.no_duplicates()
            && valid_titles(titles),
        RuleView::TitleList(titles) => titles.len() > 0 && titles.no_duplicates() && valid_titles(
            titles,
        ),
        RuleView::Category { title, recursion_depth } => valid_title(title),
    }
}

/// The inclusion reasons that exist.
pub open spec fn valid_reason(reason: ReasonView) -> bool {
    match reason {
        ReasonView::WholeMainNamespace => true,
        ReasonView::ExplicitTitle(title) => valid_title(title),
        ReasonView::TitleList(title) => valid_title(title),
        ReasonView::Category { category, depth } => valid_title(category),
    }
}

/// The members that exist.
pub open spec fn valid_member(member: MemberView) -> bool {
    member.page_id > 0 && valid_title(member.title) && valid_reason(member.reason)
}

/// The drafts that exist.
pub open spec fn valid_draft(draft: DraftView) -> bool {
    &&& draft.wiki_id > 0
    &&& valid_rule(draft.preview.rule)
    &&& forall|i: int|
        0 <= i < draft.preview.members.len() ==> valid_member(#[trigger] draft.preview.members[i])
    &&& valid_titles(draft.preview.missing_titles)
    &&& draft.history_policy != HistoryView::LastN(0)
    &&& draft.budget.maximum_pages != Some(0u64)
    &&& draft.budget.maximum_bytes != Some(0u64)
}

/// The image policies that exist.
pub open spec fn valid_image(policy: Option<ImageView>) -> bool {
    policy matches Some(ImageView::Thumbnails(bounds)) ==> thumbnail_error(
        bounds.maximum_edge_pixels,
        bounds.maximum_images_per_revision,
        bounds.maximum_bytes_per_image,
    ) is None
}

proof fn lemma_number(value: nat, width: nat, rest: Seq<u8>)
    requires
        value < pow256(width),
    ensures
        draft_number(be(value, width) + rest, width) == Ok::<(nat, Seq<u8>), Seq<char>>(
            (value, rest),
        ),
{
    lemma_split_number(value, width, rest);
}

proof fn lemma_draft_text(text: Seq<char>, maximum: usize, rest: Seq<u8>)
    requires
        text_bytes(text) <= maximum <= u32::MAX,
    ensures
        next_draft_text(text_field(text) + rest, maximum) == Ok::<(Seq<char>, Seq<u8>), Seq<char>>(
            (text, rest),
        ),
{
    let field = encode_utf8(text);
    lemma_pow256();
    lemma_cat2(be(field.len(), 4), field, rest);
    lemma_number(field.len(), 4, field + rest);
    lemma_split(field, rest);
    encode_utf8_valid_utf8(text);
    encode_utf8_decode_utf8(text);
}

proof fn lemma_title(title: Seq<char>, rest: Seq<u8>)
    requires
        text_bytes(title) <= MAX_TITLE_BYTES,
        valid_title(title),
    ensures
        next_title(text_field(title) + rest) == Ok::<(Seq<char>, Seq<u8>), Seq<char>>(
            (title, rest),
        ),
{
    lemma_draft_text(title, MAX_TITLE_BYTES, rest);
}

proof fn lemma_optional(value: Option<u64>, rest: Seq<u8>)
    ensures
        next_optional_number(optional_field(value) + rest) == Ok::<
            (Option<u64>, Seq<u8>),
            Seq<char>,
        >((value, rest)),
{
    lemma_pow256();
    match value {
        None => lemma_number(0, 1, rest),
        Some(value) => {
            lemma_cat2(be(1, 1), be(value as nat, 8), rest);
            lemma_number(1, 1, be(value as nat, 8) + rest);
            lemma_number(value as nat, 8, rest);
        },
    }
}

proof fn lemma_titles(titles: Seq<Seq<char>>, before: Seq<Seq<char>>, rest: Seq<u8>)
    requires
        valid_titles(titles),
        !some_title_too_large(titles),
    ensures
        next_titles(titles_bytes(titles) + rest, titles.len(), before) == Ok::<
            (Seq<Seq<char>>, Seq<u8>),
            Seq<char>,
        >((before + titles, rest)),
    decreases titles.len(),
{
    if titles.len() == 0 {
        assert(before + titles =~= before);
        assert(titles_bytes(titles) + rest =~= rest);
    } else {
        let tail = titles.drop_first();
        assert forall|i: int| 0 <= i < tail.len() implies valid_title(#[trigger] tail[i])
            && text_bytes(tail[i]) <= MAX_TITLE_BYTES by {
            assert(tail[i] == titles[i + 1]);
        }
        assert(text_bytes(titles[0]) <= MAX_TITLE_BYTES);
        lemma_cat2(text_field(titles[0]), titles_bytes(tail), rest);
        lemma_title(titles[0], titles_bytes(tail) + rest);
        lemma_titles(tail, before.push(titles[0]), rest);
        assert(before.push(titles[0]) + tail =~= before + titles);
    }
}

proof fn lemma_missing(titles: Seq<Seq<char>>, before: Seq<Seq<char>>, rest: Seq<u8>)
    requires
        valid_titles(titles),
        !some_title_too_large(titles),
        (before + titles).no_duplicates(),
    ensures
        next_missing(titles_bytes(titles) + rest, titles.len(), before) == Ok::<
            (Seq<Seq<char>>, Seq<u8>),
            Seq<char>,
        >((before + titles, rest)),
    decreases titles.len(),
{
    if titles.len() == 0 {
        assert(before + titles =~= before);
        assert(titles_bytes(titles) + rest =~= rest);
    } else {
        let tail = titles.drop_first();
        assert forall|i: int| 0 <= i < tail.len() implies valid_title(#[trigger] tail[i])
            && text_bytes(tail[i]) <= MAX_TITLE_BYTES by {
            assert(tail[i] == titles[i + 1]);
        }
        assert(text_bytes(titles[0]) <= MAX_TITLE_BYTES);
        lemma_cat2(text_field(titles[0]), titles_bytes(tail), rest);
        lemma_title(titles[0], titles_bytes(tail) + rest);
        let all = before + titles;
        if before.contains(titles[0]) {
            let k = choose|k: int| 0 <= k < before.len() && before[k] == titles[0];
            assert(all[k] == all[before.len() as int]);
        }
        assert(before.push(titles[0]) + tail =~= all);
        lemma_missing(tail, before.push(titles[0]), rest);
    }
}

/// A sequence without repetitions is its own first occurrences.
proof fn lemma_first_occurrences(texts: Seq<Seq<char>>)
    requires
        texts.no_duplicates(),
    ensures
        first_occurrences(texts) == texts,
    decreases texts.len(),
{
    if texts.len() > 0 {
        let before = texts.drop_last();
        assert(before.no_duplicates()) by {
            assert forall|i: int, j: int|
                0 <= i < before.len() && 0 <= j < before.len() && i != j implies before[i]
                != before[j] by {
                assert(texts[i] != texts[j]);
            }
        }
        lemma_first_occurrences(before);
        if before.contains(texts.last()) {
            let k = choose|k: int| 0 <= k < before.len() && before[k] == texts.last();
            assert(texts[k] == texts[texts.len() - 1]);
        }
        assert(before.push(texts.last()) =~= texts);
    }
}

/// Only a sequence without repetitions keeps its length.
proof fn lemma_first_occurrences_len(texts: Seq<Seq<char>>)
    ensures
        first_occurrences(texts).len() <= texts.len(),
        first_occurrences(texts).no_duplicates(),
        first_occurrences(texts).len() == texts.len() ==> first_occurrences(texts) == texts,
    decreases texts.len(),
{
    if texts.len() > 0 {
        let before = texts.drop_last();
        lemma_first_occurrences_len(before);
        let kept = first_occurrences(before);
        if !kept.contains(texts.last()) {
            if kept.len() == before.len() {
                assert(before.push(texts.last()) =~= texts);
            }
        }
    }
}

proof fn lemma_count(count: nat, maximum: usize, rest: Seq<u8>)
    requires
        count <= maximum <= u32::MAX,
    ensures
        next_count(be(count, 4) + rest, maximum) == Ok::<(nat, Seq<u8>), Seq<char>>((count, rest)),
{
    lemma_pow256();
    lemma_number(count, 4, rest);
}

proof fn lemma_selection(titles: Seq<Seq<char>>, rest: Seq<u8>)
    requires
        0 < titles.len() <= MAX_RULE_TITLES,
        titles.no_duplicates(),
        valid_titles(titles),
        !some_title_too_large(titles),
    ensures
        next_selection(be(titles.len(), 4) + (titles_bytes(titles) + rest)) == Ok::<
            (Seq<Seq<char>>, Seq<u8>),
            Seq<char>,
        >((titles, rest)),
{
    lemma_count(titles.len(), MAX_RULE_TITLES, titles_bytes(titles) + rest);
    lemma_titles(titles, Seq::empty(), rest);
    lemma_first_occurrences(titles);
    assert(Seq::<Seq<char>>::empty() + titles =~= titles);
}

proof fn lemma_rule(rule: RuleView, rest: Seq<u8>)
    requires
        valid_rule(rule),
        !(rule is WholeMainNamespace),
        rule_title_count(rule) <= MAX_RULE_TITLES,
        !rule_title_too_large(rule),
    ensures
        next_rule(rule_bytes(rule) + rest) == Ok::<(RuleView, Seq<u8>), Seq<char>>((rule, rest)),
{
    lemma_pow256();
    match rule {
        RuleView::WholeMainNamespace => {},
        RuleView::ExplicitTitles(titles) => {
            lemma_cat3(be(1, 1), be(titles.len(), 4), titles_bytes(titles), rest);
            lemma_number(1, 1, be(titles.len(), 4) + (titles_bytes(titles) + rest));
            lemma_selection(titles, rest);
        },
        RuleView::TitleList(titles) => {
            lemma_cat3(be(2, 1), be(titles.len(), 4), titles_bytes(titles), rest);
            lemma_number(2, 1, be(titles.len(), 4) + (titles_bytes(titles) + rest));
            lemma_selection(titles, rest);
        },
        RuleView::Category { title, recursion_depth } => {
            let depth = be(recursion_depth as nat, 2);
            lemma_cat3(be(3, 1), text_field(title), depth, rest);
            lemma_number(3, 1, text_field(title) + (depth + rest));
            lemma_title(title, depth + rest);
            lemma_number(recursion_depth as nat, 2, rest);
        },
    }
}

proof fn lemma_reason(reason: ReasonView, rest: Seq<u8>)
    requires
        valid_reason(reason),
        reason_encodable(reason),
    ensures
        next_reason(reason_bytes(reason) + rest) == Ok::<(ReasonView, Seq<u8>), Seq<char>>(
            (reason, rest),
        ),
{
    lemma_pow256();
    match reason {
        ReasonView::WholeMainNamespace => {},
        ReasonView::ExplicitTitle(title) => {
            lemma_cat2(be(1, 1), text_field(title), rest);
            lemma_number(1, 1, text_field(title) + rest);
            lemma_title(title, rest);
        },
        ReasonView::TitleList(title) => {
            lemma_cat2(be(2, 1), text_field(title), rest);
            lemma_number(2, 1, text_field(title) + rest);
            lemma_title(title, rest);
        },
        ReasonView::Category { category, depth } => {
            let number = be(depth as nat, 2);
            lemma_cat3(be(3, 1), text_field(category), number, rest);
            lemma_number(3, 1, text_field(category) + (number + rest));
            lemma_title(category, number + rest);
            lemma_number(depth as nat, 2, rest);
        },
    }
}

proof fn lemma_member(member: MemberView, before: Seq<MemberView>, rest: Seq<u8>)
    requires
        valid_member(member),
        member_encodable(member),
        !page_seen(before, before.len() as int, member.page_id),
    ensures
        next_member(member_bytes(member) + rest, before) == Ok::<(MemberView, Seq<u8>), Seq<char>>(
            (member, rest),
        ),
{
    lemma_pow256();
    let id = be(member.page_id as nat, 8);
    let namespace = be(bits32(member.namespace), 4);
    let title = text_field(member.title);
    let reason = reason_bytes(member.reason);
    lemma_cat4(id, namespace, title, reason, rest);
    lemma_number(member.page_id as nat, 8, namespace + (title + (reason + rest)));
    lemma_number(bits32(member.namespace), 4, title + (reason + rest));
    lemma_title(member.title, reason + rest);
    lemma_reason(member.reason, rest);
    assert(signed32(bits32(member.namespace) as u32) == member.namespace);
}

/// No page occurs twice.
pub open spec fn distinct_pages(members: Seq<MemberView>) -> bool {
    forall|i: int, j: int|
        0 <= i < j < members.len() ==> (#[trigger] members[i]).page_id != (
        #[trigger] members[j]).page_id
}

proof fn lemma_members(members: Seq<MemberView>, before: Seq<MemberView>, rest: Seq<u8>)
    requires
        forall|i: int|
            0 <= i < members.len() ==> valid_member(#[trigger] members[i]) && member_encodable(
                members[i],
            ),
        distinct_pages(before + members),
    ensures
        next_members(members_bytes(members) + rest, members.len(), before) == Ok::<
            (Seq<MemberView>, Seq<u8>),
            Seq<char>,
        >((before + members, rest)),
    decreases members.len(),
{
    if members.len() == 0 {
        assert(before + members =~= before);
        assert(members_bytes(members) + rest =~= rest);
    } else {
        let tail = members.drop_first();
        let all = before + members;
        assert forall|i: int| 0 <= i < tail.len() implies valid_member(#[trigger] tail[i])
            && member_encodable(tail[i]) by {
            assert(tail[i] == members[i + 1]);
        }
        lemma_cat2(member_bytes(members[0]), members_bytes(tail), rest);
        assert(valid_member(members[0]));
        if page_seen(before, before.len() as int, members[0].page_id) {
            let k = choose|k: int|
                0 <= k < before.len() && (#[trigger] before[k]).page_id == members[0].page_id;
            assert(all[k].page_id == all[before.len() as int].page_id);
        }
        lemma_member(members[0], before, members_bytes(tail) + rest);
        assert(before.push(members[0]) + tail =~= all);
        lemma_members(tail, before.push(members[0]), rest);
    }
}

/// Members without a violation have different pages.
proof fn lemma_members_distinct(rule: RuleView, members: Seq<MemberView>, count: nat)
    requires
        members_error(rule, members, count) is None,
        count <= members.len(),
    ensures
        forall|i: int, j: int|
            0 <= i < j < count ==> (#[trigger] members[i]).page_id != (
            #[trigger] members[j]).page_id,
    decreases count,
{
    if count > 0 {
        lemma_members_distinct(rule, members, (count - 1) as nat);
        assert(member_error(rule, members, count - 1) is None);
        assert forall|i: int| 0 <= i < count - 1 implies (#[trigger] members[i]).page_id
            != members[count - 1].page_id by {
            if members[i].page_id == members[count - 1].page_id {
                assert(page_seen(members, count - 1, members[count - 1].page_id));
            }
        }
    }
}

proof fn lemma_scope(preview: PreviewView, rest: Seq<u8>)
    requires
        bounds_error(preview) is None,
        missing_error(preview.missing_titles) is None,
        forall|i: int|
            0 <= i < preview.members.len() ==> valid_member(#[trigger] preview.members[i])
                && member_encodable(preview.members[i]),
        distinct_pages(preview.members),
        valid_titles(preview.missing_titles),
    ensures
        next_scope(scope_bytes(preview) + rest) == Ok::<
            ((Seq<MemberView>, Seq<Seq<char>>), Seq<u8>),
            Seq<char>,
        >(((preview.members, preview.missing_titles), rest)),
{
    let members = preview.members;
    let missing = preview.missing_titles;
    let tail = be(missing.len(), 4) + (titles_bytes(missing) + rest);
    lemma_cat4(
        be(members.len(), 4),
        members_bytes(members),
        be(missing.len(), 4),
        titles_bytes(missing),
        rest,
    );
    lemma_count(members.len(), MAX_PREVIEW_MEMBERS, members_bytes(members) + tail);
    assert(Seq::<MemberView>::empty() + members =~= members);
    lemma_members(members, Seq::empty(), tail);
    lemma_count(missing.len(), MAX_PREVIEW_MISSING_TITLES, titles_bytes(missing) + rest);
    assert(Seq::<Seq<char>>::empty() + missing =~= missing);
    lemma_missing(missing, Seq::empty(), rest);
}

proof fn lemma_history(policy: HistoryView, rest: Seq<u8>)
    requires
        policy != HistoryView::LastN(0),
    ensures
        next_history(history_bytes(policy) + rest) == Ok::<(HistoryView, Seq<u8>), Seq<char>>(
            (policy, rest),
        ),
{
    lemma_pow256();
    match policy {
        HistoryView::CurrentAndFuture => lemma_number(1, 1, rest),
        HistoryView::LastN(count) => {
            lemma_cat2(be(2, 1), be(count as nat, 4), rest);
            lemma_number(2, 1, be(count as nat, 4) + rest);
            lemma_number(count as nat, 4, rest);
        },
        HistoryView::Since(seconds) => {
            lemma_cat2(be(3, 1), be(bits64(seconds), 8), rest);
            lemma_number(3, 1, be(bits64(seconds), 8) + rest);
            lemma_number(bits64(seconds), 8, rest);
            assert(signed64(bits64(seconds) as u64) == seconds);
        },
        HistoryView::Complete => lemma_number(4, 1, rest),
    }
}

proof fn lemma_removal(policy: CollectionRemovalPolicy, rest: Seq<u8>)
    ensures
        next_removal(be(removal_tag(policy) as nat, 1) + rest) == Ok::<
            (CollectionRemovalPolicy, Seq<u8>),
            Seq<char>,
        >((policy, rest)),
{
    lemma_pow256();
    lemma_number(removal_tag(policy) as nat, 1, rest);
}

/// The policies of a draft.
pub open spec fn draft_policies(draft: DraftView) -> PoliciesView {
    PoliciesView {
        predicted_canonical_bytes: draft.preview.predicted_canonical_bytes,
        category_batches: draft.preview.category_batches,
        history_policy: draft.history_policy,
        budget: draft.budget,
        removal_policy: draft.removal_policy,
    }
}

proof fn lemma_policies(draft: DraftView, rest: Seq<u8>)
    requires
        valid_draft(draft),
    ensures
        next_policies(policy_bytes(draft) + rest) == Ok::<(PoliciesView, Seq<u8>), Seq<char>>(
            (draft_policies(draft), rest),
        ),
{
    let predicted = optional_field(draft.preview.predicted_canonical_bytes);
    let batches = be(draft.preview.category_batches as nat, 8);
    let history = history_bytes(draft.history_policy);
    let pages = optional_field(draft.budget.maximum_pages);
    let limit = optional_field(draft.budget.maximum_bytes);
    let removal = be(removal_tag(draft.removal_policy) as nat, 1);
    lemma_pow256();
    lemma_cat6(predicted, batches, history, pages, limit, removal, rest);
    let after_limit = removal + rest;
    let after_pages = limit + after_limit;
    let after_history = pages + after_pages;
    let after_batches = history + after_history;
    lemma_optional(draft.preview.predicted_canonical_bytes, batches + after_batches);
    lemma_number(draft.preview.category_batches as nat, 8, after_batches);
    lemma_history(draft.history_policy, after_history);
    lemma_optional(draft.budget.maximum_pages, after_pages);
    lemma_optional(draft.budget.maximum_bytes, after_limit);
    lemma_removal(draft.removal_policy, rest);
}

proof fn lemma_image(policy: ImageView, rest: Seq<u8>)
    requires
        valid_image(Some(policy)),
    ensures
        next_image(image_bytes(policy) + rest) == Ok::<(ImageView, Seq<u8>), Seq<char>>(
            (policy, rest),
        ),
{
    lemma_pow256();
    match policy {
        ImageView::Off => lemma_number(0, 1, rest),
        ImageView::Thumbnails(bounds) => {
            let edge = be(bounds.maximum_edge_pixels as nat, 4);
            let images = be(bounds.maximum_images_per_revision as nat, 4);
            let limit = be(bounds.maximum_bytes_per_image as nat, 8);
            lemma_cat4(be(1, 1), edge, images, limit, rest);
            lemma_number(1, 1, edge + (images + (limit + rest)));
            lemma_number(bounds.maximum_edge_pixels as nat, 4, images + (limit + rest));
            lemma_number(bounds.maximum_images_per_revision as nat, 4, limit + rest);
            lemma_number(bounds.maximum_bytes_per_image as nat, 8, rest);
        },
    }
}

/// The head of a draft.
pub open spec fn draft_head(draft: DraftView, version: u16) -> HeadView {
    HeadView { version, wiki_id: draft.wiki_id, name: draft.name, rule: draft.preview.rule }
}

proof fn lemma_head(draft: DraftView, version: u16, rest: Seq<u8>)
    requires
        version == LEGACY_DRAFT_VERSION || version == DRAFT_VERSION,
        valid_draft(draft),
        text_bytes(draft.name) <= MAX_COLLECTION_NAME_BYTES,
        !(draft.preview.rule is WholeMainNamespace),
        rule_title_count(draft.preview.rule) <= MAX_RULE_TITLES,
        !rule_title_too_large(draft.preview.rule),
    ensures
        next_head(head_bytes(draft, version) + rest) == Ok::<(HeadView, Seq<u8>), Seq<char>>(
            (draft_head(draft, version), rest),
        ),
{
    let number = be(version as nat, 2);
    let wiki = be(draft.wiki_id as nat, 8);
    let name = text_field(draft.name);
    let rule = rule_bytes(draft.preview.rule);
    let after_name = rule + rest;
    let after_wiki = name + after_name;
    let after_number = wiki + after_wiki;
    let after_magic = number + after_number;
    lemma_cat5(draft_magic(), number, wiki, name, rule, rest);
    lemma_head_steps(draft, version, after_name, rest);
    lemma_rule(draft.preview.rule, rest);
    lemma_head_parts(draft_head(draft, version), after_magic, after_number, after_wiki, after_name, rest);
}

proof fn lemma_head_parts(
    head: HeadView,
    after_magic: Seq<u8>,
    after_number: Seq<u8>,
    after_wiki: Seq<u8>,
    after_name: Seq<u8>,
    rest: Seq<u8>,
)
    requires
        head.version == LEGACY_DRAFT_VERSION || head.version == DRAFT_VERSION,
        head.wiki_id > 0,
        draft_number(after_magic, 2) == Ok::<(nat, Seq<u8>), Seq<char>>(
            (head.version as nat, after_number),
        ),
        draft_number(after_number, 8) == Ok::<(nat, Seq<u8>), Seq<char>>(
            (head.wiki_id as nat, after_wiki),
        ),
        next_draft_text(after_wiki, MAX_COLLECTION_NAME_BYTES) == Ok::<
            (Seq<char>, Seq<u8>),
            Seq<char>,
        >((head.name, after_name)),
        next_rule(after_name) == Ok::<(RuleView, Seq<u8>), Seq<char>>((head.rule, rest)),
    ensures
        next_head(draft_magic() + after_magic) == Ok::<(HeadView, Seq<u8>), Seq<char>>(
            (head, rest),
        ),
{
    assert(draft_magic().len() == 4);
    lemma_split(draft_magic(), after_magic);
}

proof fn lemma_head_steps(draft: DraftView, version: u16, after_name: Seq<u8>, rest: Seq<u8>)
    requires
        text_bytes(draft.name) <= MAX_COLLECTION_NAME_BYTES,
    ensures
        ({
            let after_wiki = text_field(draft.name) + after_name;
            let after_number = be(draft.wiki_id as nat, 8) + after_wiki;
            let after_magic = be(version as nat, 2) + after_number;
            &&& draft_number(after_magic, 2) == Ok::<(nat, Seq<u8>), Seq<char>>(
                (version as nat, after_number),
            )
            &&& draft_number(after_number, 8) == Ok::<(nat, Seq<u8>), Seq<char>>(
                (draft.wiki_id as nat, after_wiki),
            )
            &&& next_draft_text(after_wiki, MAX_COLLECTION_NAME_BYTES) == Ok::<
                (Seq<char>, Seq<u8>),
                Seq<char>,
            >((draft.name, after_name))
        }),
{
    lemma_pow256();
    let after_wiki = text_field(draft.name) + after_name;
    lemma_number(version as nat, 2, be(draft.wiki_id as nat, 8) + after_wiki);
    lemma_number(draft.wiki_id as nat, 8, after_wiki);
    lemma_draft_text(draft.name, MAX_COLLECTION_NAME_BYTES, after_name);
}

/// Decoding gives back every draft and image policy that can be encoded.
#[verifier::spinoff_prover]
#[verifier::rlimit(60)]
pub proof fn law_draft_round_trip(draft: DraftView, image_policy: Option<ImageView>)
    requires
        valid_draft(draft),
        valid_image(image_policy),
        draft_encoding(draft, image_policy) is Ok,
    ensures
        draft_decoding(draft_encoding(draft, image_policy)->Ok_0) == Ok::<
            (DraftView, Option<ImageView>),
            Seq<char>,
        >((draft, image_policy)),
{
    let bytes = draft_bytes(draft, image_policy);
    let version = draft_version(image_policy);
    let head = head_bytes(draft, version);
    let scope = scope_bytes(draft.preview);
    let policies = policy_bytes(draft);
    let image = image_tail(image_policy);
    let empty = Seq::<u8>::empty();
    lemma_cat3(head, scope, policies, image);
    lemma_members_encodable(
        draft.preview.rule,
        draft.preview.members,
        draft.preview.members.len(),
    );
    lemma_members_distinct(draft.preview.rule, draft.preview.members, draft.preview.members.len());
    lemma_head(draft, version, scope + (policies + image));
    lemma_scope(draft.preview, policies + image);
    lemma_policies(draft, image);
    match image_policy {
        Some(policy) => {
            lemma_cat_empty(image);
            lemma_image(policy, empty);
        },
        None => {},
    }
}

/// An encoded draft with anything after it is refused: as too large where it outgrows the
/// staging ceiling, and for its trailing bytes otherwise.
#[verifier::spinoff_prover]
#[verifier::rlimit(60)]
pub proof fn law_draft_refuses_trailing_bytes(
    draft: DraftView,
    image_policy: Option<ImageView>,
    extra: Seq<u8>,
)
    requires
        valid_draft(draft),
        valid_image(image_policy),
        draft_encoding(draft, image_policy) is Ok,
        extra.len() > 0,
    ensures
        ({
            let bytes = draft_encoding(draft, image_policy)->Ok_0 + extra;
            let message = if bytes.len() > MAX_COLLECTION_DRAFT_BYTES {
                "staged collection draft is too large"@
            } else {
                "collection draft has trailing bytes"@
            };
            &&& draft_decoding(bytes) == Err::<(DraftView, Option<ImageView>), Seq<char>>(message)
            &&& plain_draft_decoding(bytes) == Err::<DraftView, Seq<char>>(message)
        }),
{
    let version = draft_version(image_policy);
    let head = head_bytes(draft, version);
    let scope = scope_bytes(draft.preview);
    let policies = policy_bytes(draft);
    let image = image_tail(image_policy);
    lemma_cat4(head, scope, policies, image, extra);
    lemma_members_encodable(
        draft.preview.rule,
        draft.preview.members,
        draft.preview.members.len(),
    );
    lemma_members_distinct(draft.preview.rule, draft.preview.members, draft.preview.members.len());
    lemma_head(draft, version, scope + (policies + (image + extra)));
    lemma_scope(draft.preview, policies + (image + extra));
    lemma_policies(draft, image + extra);
    match image_policy {
        Some(policy) => {
            lemma_image(policy, extra);
        },
        None => {
            assert(image + extra =~= extra);
        },
    }
}

/// A draft without an image policy comes back from the plain decoder.
pub proof fn law_plain_draft_round_trip(draft: DraftView)
    requires
        valid_draft(draft),
        draft_encoding(draft, None) is Ok,
    ensures
        plain_draft_decoding(draft_encoding(draft, None)->Ok_0) == Ok::<DraftView, Seq<char>>(
            draft,
        ),
{
    law_draft_round_trip(draft, None);
}

/// A draft with an image policy is refused by the plain decoder.
pub proof fn law_image_draft_needs_version_two(draft: DraftView, image_policy: ImageView)
    requires
        valid_draft(draft),
        valid_image(Some(image_policy)),
        draft_encoding(draft, Some(image_policy)) is Ok,
    ensures
        plain_draft_decoding(draft_encoding(draft, Some(image_policy))->Ok_0) == Err::<
            DraftView,
            Seq<char>,
        >("image-aware collection drafts require draft-v2 administration"@),
{
    law_draft_round_trip(draft, Some(image_policy));
}

/// No encoded draft exceeds the staging ceiling.
pub proof fn law_encoded_draft_fits_staging(draft: DraftView, image_policy: Option<ImageView>)
    ensures
        draft_encoding(draft, image_policy) matches Ok(bytes) ==> 0 < bytes.len()
            <= MAX_COLLECTION_DRAFT_BYTES,
{
    assert(draft_bytes(draft, image_policy).len() >= draft_magic().len());
}

proof fn lemma_number_of(bytes: Seq<u8>, width: nat)
    ensures
        draft_number(bytes, width) matches Ok((value, rest)) ==> value < pow256(width) && bytes
            == be(value, width) + rest,
{
    if draft_number(bytes, width) is Ok {
        lemma_number_read(bytes, width);
    }
}

proof fn lemma_draft_text_read(bytes: Seq<u8>, maximum: usize)
    ensures
        next_draft_text(bytes, maximum) matches Ok((text, rest)) ==> text_bytes(text) <= maximum
            && bytes == text_field(text) + rest,
{
    lemma_number_of(bytes, 4);
    if next_draft_text(bytes, maximum) is Ok {
        let (length, after) = draft_number(bytes, 4)->Ok_0;
        let (field, rest) = split(after, length)->0;
        assert(after =~= field + rest);
        decode_utf8_encode_utf8(field);
        lemma_cat2(be(length, 4), field, rest);
    }
}

proof fn lemma_title_read(bytes: Seq<u8>)
    ensures
        next_title(bytes) matches Ok((title, rest)) ==> text_bytes(title) <= MAX_TITLE_BYTES
            && valid_title(title) && bytes == text_field(title) + rest,
{
    lemma_draft_text_read(bytes, MAX_TITLE_BYTES);
}

proof fn lemma_optional_read(bytes: Seq<u8>)
    ensures
        next_optional_number(bytes) matches Ok((value, rest)) ==> bytes == optional_field(value)
            + rest,
{
    lemma_pow256();
    lemma_number_of(bytes, 1);
    if next_optional_number(bytes) is Ok {
        let (tag, after) = draft_number(bytes, 1)->Ok_0;
        if tag == 1 {
            lemma_number_of(after, 8);
            let (value, rest) = draft_number(after, 8)->Ok_0;
            lemma_cat2(be(1, 1), be(value, 8), rest);
        }
    }
}

proof fn lemma_titles_read(bytes: Seq<u8>, count: nat, before: Seq<Seq<char>>)
    ensures
        next_titles(bytes, count, before) matches Ok((all, rest)) ==> {
            let read = all.skip(before.len() as int);
            &&& all.len() == before.len() + count
            &&& all == before + read
            &&& !some_title_too_large(read)
            &&& bytes == titles_bytes(read) + rest
        },
    decreases count,
{
    if next_titles(bytes, count, before) is Ok {
        let (all, rest) = next_titles(bytes, count, before)->Ok_0;
        let read = all.skip(before.len() as int);
        if count == 0 {
            assert(read =~= Seq::empty());
            assert(all =~= before + read);
            assert(bytes =~= titles_bytes(read) + rest);
        } else {
            let (title, after) = next_title(bytes)->Ok_0;
            lemma_title_read(bytes);
            lemma_titles_read(after, (count - 1) as nat, before.push(title));
            let tail = all.skip(before.len() as int + 1);
            assert(read[0] == title);
            assert(read.drop_first() =~= tail);
            assert(all =~= before + read);
            assert forall|i: int| 0 <= i < read.len() implies text_bytes(#[trigger] read[i])
                <= MAX_TITLE_BYTES by {
                if i > 0 {
                    assert(read[i] == tail[i - 1]);
                }
            }
            lemma_cat2(text_field(title), titles_bytes(tail), rest);
        }
    }
}

proof fn lemma_missing_read(bytes: Seq<u8>, count: nat, before: Seq<Seq<char>>)
    ensures
        next_missing(bytes, count, before) matches Ok((all, rest)) ==> {
            let read = all.skip(before.len() as int);
            &&& all.len() == before.len() + count
            &&& all == before + read
            &&& bytes == titles_bytes(read) + rest
        },
    decreases count,
{
    if next_missing(bytes, count, before) is Ok {
        let (all, rest) = next_missing(bytes, count, before)->Ok_0;
        let read = all.skip(before.len() as int);
        if count == 0 {
            assert(read =~= Seq::empty());
            assert(all =~= before + read);
            assert(bytes =~= titles_bytes(read) + rest);
        } else {
            let (title, after) = next_title(bytes)->Ok_0;
            lemma_title_read(bytes);
            lemma_missing_read(after, (count - 1) as nat, before.push(title));
            let tail = all.skip(before.len() as int + 1);
            assert(read[0] == title);
            assert(read.drop_first() =~= tail);
            assert(all =~= before + read);
            lemma_cat2(text_field(title), titles_bytes(tail), rest);
        }
    }
}

proof fn lemma_selection_read(bytes: Seq<u8>)
    ensures
        next_selection(bytes) matches Ok((titles, rest)) ==> titles.len() <= MAX_RULE_TITLES
            && !some_title_too_large(titles) && bytes == be(titles.len(), 4) + (titles_bytes(
            titles,
        ) + rest),
{
    lemma_number_of(bytes, 4);
    if next_selection(bytes) is Ok {
        let (count, after) = next_count(bytes, MAX_RULE_TITLES)->Ok_0;
        lemma_titles_read(after, count, Seq::empty());
        let (titles, rest) = next_titles(after, count, Seq::empty())->Ok_0;
        assert(titles.skip(0) =~= titles);
        lemma_first_occurrences_len(titles);
    }
}

proof fn lemma_rule_read(bytes: Seq<u8>)
    ensures
        next_rule(bytes) matches Ok((rule, rest)) ==> !(rule is WholeMainNamespace)
            && !rule_title_too_large(rule) && bytes == rule_bytes(rule) + rest,
{
    lemma_pow256();
    lemma_number_of(bytes, 1);
    if next_rule(bytes) is Ok {
        let (tag, after) = draft_number(bytes, 1)->Ok_0;
        let (rule, rest) = next_rule(bytes)->Ok_0;
        if tag == 3 {
            lemma_title_read(after);
            let (title, last) = next_title(after)->Ok_0;
            lemma_number_of(last, 2);
            let (depth, end) = draft_number(last, 2)->Ok_0;
            lemma_cat3(be(3, 1), text_field(title), be(depth, 2), rest);
        } else {
            lemma_selection_read(after);
            let (titles, end) = next_selection(after)->Ok_0;
            lemma_cat3(be(tag, 1), be(titles.len(), 4), titles_bytes(titles), rest);
        }
    }
}

proof fn lemma_reason_read(bytes: Seq<u8>)
    ensures
        next_reason(bytes) matches Ok((reason, rest)) ==> !(reason is WholeMainNamespace) && bytes
            == reason_bytes(reason) + rest,
{
    lemma_pow256();
    lemma_number_of(bytes, 1);
    if next_reason(bytes) is Ok {
        let (tag, after) = draft_number(bytes, 1)->Ok_0;
        lemma_title_read(after);
        let (title, last) = next_title(after)->Ok_0;
        if tag == 3 {
            lemma_number_of(last, 2);
            let (depth, rest) = draft_number(last, 2)->Ok_0;
            lemma_cat3(be(3, 1), text_field(title), be(depth, 2), rest);
        } else {
            lemma_cat2(be(tag, 1), text_field(title), last);
        }
    }
}

proof fn lemma_member_read(bytes: Seq<u8>, before: Seq<MemberView>)
    ensures
        next_member(bytes, before) matches Ok((member, rest)) ==> bytes == member_bytes(member)
            + rest,
{
    lemma_pow256();
    lemma_number_of(bytes, 8);
    if next_member(bytes, before) is Ok {
        let (member, rest) = next_member(bytes, before)->Ok_0;
        let (id, after_id) = draft_number(bytes, 8)->Ok_0;
        lemma_number_of(after_id, 4);
        let (namespace, after_namespace) = draft_number(after_id, 4)->Ok_0;
        lemma_title_read(after_namespace);
        let (title, after_title) = next_title(after_namespace)->Ok_0;
        lemma_reason_read(after_title);
        assert(bits32(signed32(namespace as u32)) == namespace);
        lemma_cat4(
            be(id, 8),
            be(namespace, 4),
            text_field(title),
            reason_bytes(member.reason),
            rest,
        );
    }
}

proof fn lemma_members_read(bytes: Seq<u8>, count: nat, before: Seq<MemberView>)
    ensures
        next_members(bytes, count, before) matches Ok((all, rest)) ==> {
            let read = all.skip(before.len() as int);
            &&& all.len() == before.len() + count
            &&& all == before + read
            &&& bytes == members_bytes(read) + rest
        },
    decreases count,
{
    if next_members(bytes, count, before) is Ok {
        let (all, rest) = next_members(bytes, count, before)->Ok_0;
        let read = all.skip(before.len() as int);
        if count == 0 {
            assert(read =~= Seq::empty());
            assert(all =~= before + read);
            assert(bytes =~= members_bytes(read) + rest);
        } else {
            let (member, after) = next_member(bytes, before)->Ok_0;
            lemma_member_read(bytes, before);
            lemma_members_read(after, (count - 1) as nat, before.push(member));
            let tail = all.skip(before.len() as int + 1);
            assert(read[0] == member);
            assert(read.drop_first() =~= tail);
            assert(all =~= before + read);
            lemma_cat2(member_bytes(member), members_bytes(tail), rest);
        }
    }
}

proof fn lemma_scope_read(bytes: Seq<u8>, preview: PreviewView)
    ensures
        next_scope(bytes) matches Ok(((members, missing), rest)) ==> (preview.members == members
            && preview.missing_titles == missing ==> bytes == scope_bytes(preview) + rest),
{
    lemma_number_of(bytes, 4);
    if next_scope(bytes) is Ok {
        let (count, after_count) = next_count(bytes, MAX_PREVIEW_MEMBERS)->Ok_0;
        lemma_members_read(after_count, count, Seq::empty());
        let (members, after_members) = next_members(after_count, count, Seq::empty())->Ok_0;
        assert(members.skip(0) =~= members);
        lemma_number_of(after_members, 4);
        let (titles, after_titles) = next_count(after_members, MAX_PREVIEW_MISSING_TITLES)->Ok_0;
        lemma_missing_read(after_titles, titles, Seq::empty());
        let (missing, rest) = next_missing(after_titles, titles, Seq::empty())->Ok_0;
        assert(missing.skip(0) =~= missing);
        lemma_cat4(
            be(members.len(), 4),
            members_bytes(members),
            be(missing.len(), 4),
            titles_bytes(missing),
            rest,
        );
    }
}

proof fn lemma_history_read(bytes: Seq<u8>)
    ensures
        next_history(bytes) matches Ok((policy, rest)) ==> bytes == history_bytes(policy) + rest,
{
    lemma_pow256();
    lemma_number_of(bytes, 1);
    if next_history(bytes) is Ok {
        let (tag, after) = draft_number(bytes, 1)->Ok_0;
        if tag == 2 {
            lemma_number_of(after, 4);
            let (count, rest) = draft_number(after, 4)->Ok_0;
            lemma_cat2(be(2, 1), be(count, 4), rest);
        } else if tag == 3 {
            lemma_number_of(after, 8);
            let (bits, rest) = draft_number(after, 8)->Ok_0;
            assert(bits64(signed64(bits as u64)) == bits);
            lemma_cat2(be(3, 1), be(bits, 8), rest);
        }
    }
}

proof fn lemma_policies_read(bytes: Seq<u8>, draft: DraftView)
    ensures
        next_policies(bytes) matches Ok((policies, rest)) ==> (draft_policies(draft) == policies
            ==> bytes == policy_bytes(draft) + rest),
{
    lemma_pow256();
    if next_policies(bytes) is Ok {
        lemma_optional_read(bytes);
        let (predicted, after_predicted) = next_optional_number(bytes)->Ok_0;
        lemma_number_of(after_predicted, 8);
        let (batches, after_batches) = draft_number(after_predicted, 8)->Ok_0;
        lemma_history_read(after_batches);
        let (history, after_history) = next_history(after_batches)->Ok_0;
        lemma_optional_read(after_history);
        let (pages, after_pages) = next_optional_number(after_history)->Ok_0;
        lemma_optional_read(after_pages);
        let (limit, after_limit) = next_optional_number(after_pages)->Ok_0;
        lemma_number_of(after_limit, 1);
        let (tag, rest) = draft_number(after_limit, 1)->Ok_0;
        lemma_cat6(
            optional_field(predicted),
            be(batches, 8),
            history_bytes(history),
            optional_field(pages),
            optional_field(limit),
            be(tag, 1),
            rest,
        );
    }
}

proof fn lemma_image_read(bytes: Seq<u8>)
    ensures
        next_image(bytes) matches Ok((policy, rest)) ==> bytes == image_bytes(policy) + rest,
{
    lemma_pow256();
    lemma_number_of(bytes, 1);
    if next_image(bytes) is Ok {
        let (tag, after) = draft_number(bytes, 1)->Ok_0;
        if tag == 1 {
            lemma_number_of(after, 4);
            let (edge, after_edge) = draft_number(after, 4)->Ok_0;
            lemma_number_of(after_edge, 4);
            let (images, after_images) = draft_number(after_edge, 4)->Ok_0;
            lemma_number_of(after_images, 8);
            let (limit, rest) = draft_number(after_images, 8)->Ok_0;
            lemma_cat4(be(1, 1), be(edge, 4), be(images, 4), be(limit, 8), rest);
        }
    }
}

proof fn lemma_head_read(bytes: Seq<u8>, draft: DraftView)
    ensures
        next_head(bytes) matches Ok((head, rest)) ==> {
            &&& !(head.rule is WholeMainNamespace)
            &&& !rule_title_too_large(head.rule)
            &&& head.version == LEGACY_DRAFT_VERSION || head.version == DRAFT_VERSION
            &&& draft_head(draft, head.version) == head ==> bytes == head_bytes(
                draft,
                head.version,
            ) + rest
        },
{
    lemma_pow256();
    if next_head(bytes) is Ok {
        let (head, rest) = next_head(bytes)->Ok_0;
        let (magic, after_magic) = split(bytes, 4)->0;
        assert(bytes =~= magic + after_magic);
        lemma_number_of(after_magic, 2);
        let (version, after_version) = draft_number(after_magic, 2)->Ok_0;
        lemma_number_of(after_version, 8);
        let (wiki, after_wiki) = draft_number(after_version, 8)->Ok_0;
        lemma_draft_text_read(after_wiki, MAX_COLLECTION_NAME_BYTES);
        let (name, after_name) = next_draft_text(after_wiki, MAX_COLLECTION_NAME_BYTES)->Ok_0;
        lemma_rule_read(after_name);
        lemma_cat5(
            draft_magic(),
            be(version, 2),
            be(wiki, 8),
            text_field(name),
            rule_bytes(head.rule),
            rest,
        );
    }
}

proof fn lemma_structure_read(bytes: Seq<u8>)
    ensures
        draft_structure(bytes) matches Ok((draft, image)) ==> {
            &&& bytes.len() <= MAX_COLLECTION_DRAFT_BYTES
            &&& !(draft.preview.rule is WholeMainNamespace)
            &&& !rule_title_too_large(draft.preview.rule)
            &&& bytes == draft_bytes(draft, image)
        },
{
    if draft_structure(bytes) is Ok {
        let (draft, image) = draft_structure(bytes)->Ok_0;
        lemma_head_read(bytes, draft);
        let (head, after_head) = next_head(bytes)->Ok_0;
        lemma_scope_read(after_head, draft.preview);
        let ((members, missing), after_scope) = next_scope(after_head)->Ok_0;
        lemma_policies_read(after_scope, draft);
        let (policies, after_policies) = next_policies(after_scope)->Ok_0;
        if head.version == DRAFT_VERSION {
            lemma_image_read(after_policies);
            let (policy, end) = next_image(after_policies)->Ok_0;
            assert(end =~= Seq::empty());
            lemma_cat_empty(image_bytes(policy));
        } else {
            assert(after_policies =~= image_tail(image));
        }
        lemma_cat3(
            head_bytes(draft, head.version),
            scope_bytes(draft.preview),
            policy_bytes(draft),
            image_tail(image),
        );
    }
}

/// Accepted bytes are the one encoding of the draft they decode to.
pub proof fn law_draft_encoding_is_canonical(bytes: Seq<u8>)
    ensures
        draft_decoding(bytes) matches Ok((draft, image)) ==> draft_encoding(draft, image) == Ok::<
            Seq<u8>,
            Seq<char>,
        >(bytes),
{
    lemma_structure_read(bytes);
    if draft_decoding(bytes) is Ok {
        let (draft, image) = draft_decoding(bytes)->Ok_0;
        lemma_no_whole_edition(
            draft.preview.rule,
            draft.preview.members,
            draft.preview.members.len(),
        );
        assert(bytes.len() <= usize::MAX);
    }
}

/// Bytes above the staging ceiling decode to nothing.
pub proof fn law_oversized_draft_is_refused(bytes: Seq<u8>)
    requires
        bytes.len() > MAX_COLLECTION_DRAFT_BYTES,
    ensures
        draft_decoding(bytes) == Err::<(DraftView, Option<ImageView>), Seq<char>>(
            "staged collection draft is too large"@,
        ),
{
}

} // verus!
