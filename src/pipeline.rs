use vstd::prelude::*;

use crate::date::{normalize_spec, Date};
use crate::event::{description_spec, end_bound, pairs_view, start_bound, DateEntry};
use crate::notion::{
    base_title, base_title_exec, prefix_icon, with_icon, NotionDatabaseResponse, NotionDate,
    NotionPage, NotionPerson, NotionProperty, NotionPropertyValue, NotionRelation, NotionSelect,
    NotionSelectType, NotionText,
};

verus! {

/// Words joined by single spaces.
pub open spec fn join_spaced(w: Seq<Seq<char>>) -> Seq<char>
    decreases w.len(),
{
    if w.len() == 0 {
        Seq::empty()
    } else if w.len() == 1 {
        w[0]
    } else {
        join_spaced(w.drop_last()) + seq![' '] + w.last()
    }
}

pub open spec fn text_words(v: Seq<NotionText>) -> Seq<Seq<char>> {
    Seq::new(v.len(), |i: int| v[i].plain_text@)
}

pub open spec fn select_words(v: Seq<NotionSelect>) -> Seq<Seq<char>> {
    Seq::new(v.len(), |i: int| v[i].name@)
}

pub open spec fn person_name(p: NotionPerson) -> Seq<char> {
    match p.name {
        Some(n) => n@,
        None => "NoName"@,
    }
}

pub open spec fn person_words(v: Seq<NotionPerson>) -> Seq<Seq<char>> {
    Seq::new(v.len(), |i: int| person_name(v[i]))
}

/// The title resolved for a page id: the last entry with that id.
pub open spec fn lookup_title(titles: Seq<(String, String)>, id: Seq<char>) -> Option<Seq<char>>
    decreases titles.len(),
{
    if titles.len() == 0 {
        None
    } else if titles.last().0@ == id {
        Some(titles.last().1@)
    } else {
        lookup_title(titles.drop_last(), id)
    }
}

/// The title of the last referenced page that was resolved; empty if none was.
pub open spec fn last_resolved(rels: Seq<NotionRelation>, titles: Seq<(String, String)>) -> Seq<
    char,
>
    decreases rels.len(),
{
    if rels.len() == 0 {
        Seq::empty()
    } else {
        match lookup_title(titles, rels.last().id@) {
            Some(t) => t,
            None => last_resolved(rels.drop_last(), titles),
        }
    }
}

/// The symbol and the display text of a property value.
pub open spec fn symbol_and_text(value: NotionPropertyValue, titles: Seq<(String, String)>) -> (
    Seq<char>,
    Seq<char>,
) {
    match value {
        NotionPropertyValue::Number(Some(n)) => ("🔢"@, n@),
        NotionPropertyValue::RichText(v) => ("🇹"@, join_spaced(text_words(v@))),
        NotionPropertyValue::Url(Some(u)) => ("ℹ️"@, u@),
        NotionPropertyValue::MultiSelect(v) => ("➡️"@, join_spaced(select_words(v@))),
        NotionPropertyValue::Select(Some(s)) => ("▶️"@, s.name@),
        NotionPropertyValue::People(v) => ("🚹"@, join_spaced(person_words(v@))),
        NotionPropertyValue::Status(s) => ("⏺️"@, s.name@),
        NotionPropertyValue::Relation(v) => ("↗️"@, last_resolved(v@, titles)),
        _ => (Seq::empty(), Seq::empty()),
    }
}

/// The labelled display pair of a property: `symbol name` and the text,
/// or nothing where the text is empty.
pub open spec fn display_pair(
    name: Seq<char>,
    value: NotionPropertyValue,
    titles: Seq<(String, String)>,
) -> Option<(Seq<char>, Seq<char>)> {
    let st = symbol_and_text(value, titles);
    if st.1.len() == 0 {
        None
    } else {
        Some((st.0 + seq![' '] + name, st.1))
    }
}

proof fn lemma_join_step(w: Seq<Seq<char>>, i: int)
    requires
        0 <= i < w.len(),
    ensures
        join_spaced(w.take(i + 1)) == (if i == 0 {
            w[0]
        } else {
            join_spaced(w.take(i)) + seq![' '] + w[i]
        }),
{
    assert(w.take(i + 1).drop_last() =~= w.take(i));
}

fn join_words(words: &Vec<String>) -> (r: String)
    ensures
        r@ == join_spaced(strings_view(words@)),
{
    let ghost w = strings_view(words@);
    let mut r = String::new();
    let mut i: usize = 0;
    while i < words.len()
        invariant
            i <= words@.len(),
            w == strings_view(words@),
            r@ == join_spaced(w.take(i as int)),
        decreases words@.len() - i,
    {
        proof {
            lemma_join_step(w, i as int);
            reveal_strlit(" ");
        }
        if i > 0 {
            r.append(" ");
        }
        r.append(words[i].as_str());
        i = i + 1;
    }
    assert(w.take(words@.len() as int) =~= w);
    r
}

fn text_strings(v: &Vec<NotionText>) -> (r: Vec<String>)
    ensures
        strings_view(r@) == text_words(v@),
{
    let mut r: Vec<String> = Vec::new();
    let mut i: usize = 0;
    while i < v.len()
        invariant
            i <= v@.len(),
            strings_view(r@) == text_words(v@).take(i as int),
        decreases v@.len() - i,
    {
        let ghost old_r = r@;
        let x = v[i].plain_text.clone();
        r.push(x);
        assert(strings_view(r@) =~= strings_view(old_r).push(x@));
        assert(text_words(v@).take(i as int + 1) =~= text_words(v@).take(i as int).push(text_words(v@)[i as int]));
        i = i + 1;
    }
    assert(text_words(v@).take(v@.len() as int) =~= text_words(v@));
    r
}

fn select_strings(v: &Vec<NotionSelect>) -> (r: Vec<String>)
    ensures
        strings_view(r@) == select_words(v@),
{
    let mut r: Vec<String> = Vec::new();
    let mut i: usize = 0;
    while i < v.len()
        invariant
            i <= v@.len(),
            strings_view(r@) == select_words(v@).take(i as int),
        decreases v@.len() - i,
    {
        let ghost old_r = r@;
        let x = v[i].name.clone();
        r.push(x);
        assert(strings_view(r@) =~= strings_view(old_r).push(x@));
        assert(select_words(v@).take(i as int + 1) =~= select_words(v@).take(i as int).push(select_words(v@)[i as int]));
        i = i + 1;
    }
    assert(select_words(v@).take(v@.len() as int) =~= select_words(v@));
    r
}

fn person_strings(v: &Vec<NotionPerson>) -> (r: Vec<String>)
    ensures
        strings_view(r@) == person_words(v@),
{
    let mut r: Vec<String> = Vec::new();
    let mut i: usize = 0;
    while i < v.len()
        invariant
            i <= v@.len(),
            strings_view(r@) == person_words(v@).take(i as int),
        decreases v@.len() - i,
    {
        let name = match &v[i].name {
            Some(n) => n.clone(),
            None => String::from_str("NoName"),
        };
        let ghost old_r = r@;
        r.push(name);
        assert(strings_view(r@) =~= strings_view(old_r).push(name@));
        assert(person_words(v@).take(i as int + 1) =~= person_words(v@).take(i as int).push(person_words(v@)[i as int]));
        i = i + 1;
    }
    assert(person_words(v@).take(v@.len() as int) =~= person_words(v@));
    r
}

fn lookup_title_exec(titles: &Vec<(String, String)>, id: &String) -> (r: Option<String>)
    ensures
        match r {
            Some(t) => lookup_title(titles@, id@) == Some(t@),
            None => lookup_title(titles@, id@) is None,
        },
{
    let mut r: Option<String> = None;
    let mut i: usize = 0;
    while i < titles.len()
        invariant
            i <= titles@.len(),
            match r {
                Some(t) => lookup_title(titles@.take(i as int), id@) == Some(t@),
                None => lookup_title(titles@.take(i as int), id@) is None,
            },
        decreases titles@.len() - i,
    {
        assert(titles@.take(i as int + 1).drop_last() =~= titles@.take(i as int));
        if titles[i].0 == *id {
            r = Some(titles[i].1.clone());
        }
        i = i + 1;
    }
    assert(titles@.take(titles@.len() as int) =~= titles@);
    r
}

fn last_resolved_exec(rels: &Vec<NotionRelation>, titles: &Vec<(String, String)>) -> (r: String)
    ensures
        r@ == last_resolved(rels@, titles@),
{
    let mut r = String::new();
    let mut i: usize = 0;
    while i < rels.len()
        invariant
            i <= rels@.len(),
            r@ == last_resolved(rels@.take(i as int), titles@),
        decreases rels@.len() - i,
    {
        assert(rels@.take(i as int + 1).drop_last() =~= rels@.take(i as int));
        match lookup_title_exec(titles, &rels[i].id) {
            Some(t) => r = t,
            None => {},
        }
        i = i + 1;
    }
    assert(rels@.take(rels@.len() as int) =~= rels@);
    r
}

/// The labelled display pair of one property, or `None` where its display
/// text is empty. Dates, titles and the ignored kinds have none. A reference
/// shows the title of the last referenced page found in `titles`, a list of
/// (page id, title) pairs that the caller fetched beforehand.
pub fn format_property(
    name: &String,
    value: &NotionPropertyValue,
    titles: &Vec<(String, String)>,
) -> (r: Option<(String, String)>)
    ensures
        match r {
            Some(p) => display_pair(name@, *value, titles@) == Some((p.0@, p.1@)),
            None => display_pair(name@, *value, titles@) is None,
        },
{
    let (symbol, text): (&str, String) = match value {
        NotionPropertyValue::Number(Some(n)) => ("🔢", n.clone()),
        NotionPropertyValue::RichText(v) => ("🇹", join_words(&text_strings(v))),
        NotionPropertyValue::Url(Some(u)) => ("ℹ️", u.clone()),
        NotionPropertyValue::MultiSelect(v) => ("➡️", join_words(&select_strings(v))),
        NotionPropertyValue::Select(Some(s)) => ("▶️", s.name.clone()),
        NotionPropertyValue::People(v) => ("🚹", join_words(&person_strings(v))),
        NotionPropertyValue::Status(s) => ("⏺️", s.name.clone()),
        NotionPropertyValue::Relation(v) => ("↗️", last_resolved_exec(v, titles)),
        _ => ("", String::new()),
    };
    proof {
        reveal_strlit("");
    }
    if text.as_str().is_empty() {
        None
    } else {
        let mut label = String::from_str(symbol);
        label.append(" ");
        label.append(name.as_str());
        proof {
            reveal_strlit(" ");
        }
        Some((label, text))
    }
}

pub open spec fn opt_view(o: Option<String>) -> Option<Seq<char>> {
    match o {
        Some(s) => Some(s@),
        None => None,
    }
}

/// The value of the last date property that holds one.
pub open spec fn last_date(props: Seq<(String, NotionProperty)>) -> Option<NotionDate>
    decreases props.len(),
{
    if props.len() == 0 {
        None
    } else {
        match props.last().1.value {
            NotionPropertyValue::Date(Some(d)) => Some(d),
            _ => last_date(props.drop_last()),
        }
    }
}

/// The normalised date of a page, from its last date property; `None` where it has
/// none or its value does not normalise.
pub open spec fn page_date(page: NotionPage) -> Option<Date> {
    match last_date(page.properties@) {
        None => None,
        Some(nd) => match normalize_spec(nd.start@, opt_view(nd.end)) {
            Ok(d) => Some(d),
            Err(_) => None,
        },
    }
}

/// The status of the last status property.
pub open spec fn last_status(props: Seq<(String, NotionProperty)>) -> Option<NotionSelectType>
    decreases props.len(),
{
    if props.len() == 0 {
        None
    } else {
        match props.last().1.value {
            NotionPropertyValue::Status(s) => Some(s.id),
            _ => last_status(props.drop_last()),
        }
    }
}

/// A title after the glyph of a status and a space; a status outside the
/// standard ones adds nothing.
pub open spec fn with_status(s: Option<NotionSelectType>, t: Seq<char>) -> Seq<char> {
    match s {
        Some(NotionSelectType::Done) => "✅"@ + seq![' '] + t,
        Some(NotionSelectType::InProgress) => "🟧"@ + seq![' '] + t,
        Some(NotionSelectType::NotStarted) => "🔲"@ + seq![' '] + t,
        _ => t,
    }
}

/// The display title of a qualifying page: its base title, after its status
/// glyph, after its emoji.
pub open spec fn entry_title(page: NotionPage) -> Seq<char> {
    with_icon(page.icon, with_status(last_status(page.properties@), base_title(page.properties@)))
}

/// The display pairs of the properties, in their order.
pub open spec fn page_pairs(
    props: Seq<(String, NotionProperty)>,
    titles: Seq<(String, String)>,
) -> Seq<(Seq<char>, Seq<char>)>
    decreases props.len(),
{
    if props.len() == 0 {
        Seq::empty()
    } else {
        page_pairs(props.drop_last(), titles) + match display_pair(
            props.last().0@,
            props.last().1.value,
            titles,
        ) {
            Some(p) => seq![p],
            None => Seq::empty(),
        }
    }
}

/// The entry is the one made of the page.
pub open spec fn entry_of(e: DateEntry, page: NotionPage, titles: Seq<(String, String)>) -> bool {
    &&& e.id@ == page.id@
    &&& e.title@ == entry_title(page)
    &&& page_date(page) == Some(e.date)
    &&& e.url@ == page.url@
    &&& pairs_view(e.additional@) == page_pairs(page.properties@, titles)
}

fn glyph_before(glyph: &str, t: String) -> (r: String)
    ensures
        r@ == glyph@ + seq![' '] + t@,
{
    let mut r = String::from_str(glyph);
    r.append(" ");
    r.append(t.as_str());
    proof {
        reveal_strlit(" ");
    }
    r
}

fn prefix_status(s: Option<NotionSelectType>, t: String) -> (r: String)
    ensures
        r@ == with_status(s, t@),
{
    match s {
        Some(NotionSelectType::Done) => glyph_before("✅", t),
        Some(NotionSelectType::InProgress) => glyph_before("🟧", t),
        Some(NotionSelectType::NotStarted) => glyph_before("🔲", t),
        _ => t,
    }
}

fn normalize_notion(nd: &NotionDate) -> (r: Option<Date>)
    ensures
        r == (match normalize_spec(nd.start@, opt_view(nd.end)) {
            Ok(d) => Some(d),
            Err(_) => None,
        }),
        r matches Some(d) ==> d.wf(),
{
    let end = match &nd.end {
        Some(e) => Some(e.as_str()),
        None => None,
    };
    match Date::normalize(nd.start.as_str(), end) {
        Ok(d) => Some(d),
        Err(_) => None,
    }
}

/// The calendar entry of a page, or `None` where the page has no date property
/// whose value normalises. `titles` lists (page id, title) of referenced pages.
pub fn process_page(page: &NotionPage, titles: &Vec<(String, String)>) -> (r: Option<DateEntry>)
    requires
        page.wf(),
    ensures
        r is Some <==> page_date(*page) is Some,
        r matches Some(e) ==> entry_of(e, *page, titles@) && e.wf(),
        no_date_property(page.properties@) ==> r is None,
{
    proof {
        lemma_no_date_property(page.properties@);
    }
    let props = &page.properties;
    let mut date: Option<Date> = None;
    let mut found_date = false;
    let mut status: Option<NotionSelectType> = None;
    let mut additional: Vec<(String, String)> = Vec::new();
    let mut i: usize = 0;
    while i < props.len()
        invariant
            i <= props@.len(),
            found_date == (last_date(props@.take(i as int)) is Some),
            found_date ==> date == (match normalize_spec(
                last_date(props@.take(i as int))->0.start@,
                opt_view(last_date(props@.take(i as int))->0.end),
            ) {
                Ok(d) => Some(d),
                Err(_) => None,
            }),
            date matches Some(d) ==> d.wf(),
            !found_date ==> date is None,
            status == last_status(props@.take(i as int)),
            pairs_view(additional@) == page_pairs(props@.take(i as int), titles@),
        decreases props@.len() - i,
    {
        assert(props@.take(i as int + 1).drop_last() =~= props@.take(i as int));
        let name = &props[i].0;
        let value = &props[i].1.value;
        match value {
            NotionPropertyValue::Date(Some(nd)) => {
                date = normalize_notion(nd);
                found_date = true;
            },
            NotionPropertyValue::Status(s) => {
                status = Some(s.id);
            },
            _ => {},
        }
        let ghost before = additional@;
        match format_property(name, value, titles) {
            Some(p) => {
                additional.push(p);
                assert(pairs_view(additional@) =~= pairs_view(before) + seq![
                    (additional@.last().0@, additional@.last().1@),
                ]);
            },
            None => {
                assert(pairs_view(additional@) =~= pairs_view(before) + Seq::empty());
            },
        }
        i = i + 1;
    }
    assert(props@.take(props@.len() as int) =~= props@);
    match date {
        Some(d) => {
            let title = prefix_icon(&page.icon, prefix_status(status, base_title_exec(props)));
            Some(DateEntry { id: page.id.clone(), title, date: d, url: page.url.clone(), additional })
        },
        None => None,
    }
}

/// No property holds a date value.
pub open spec fn no_date_property(props: Seq<(String, NotionProperty)>) -> bool {
    forall|i: int| 0 <= i < props.len() ==> !((#[trigger] props[i]).1.value is Date)
}

proof fn lemma_no_date_property(props: Seq<(String, NotionProperty)>)
    ensures
        no_date_property(props) ==> last_date(props) is None,
    decreases props.len(),
{
    if props.len() > 0 && no_date_property(props) {
        let rest = props.drop_last();
        assert(no_date_property(rest)) by {
            assert forall|i: int| 0 <= i < rest.len() implies !((#[trigger] rest[i]).1.value is Date) by {
                assert(rest[i] == props[i]);
            }
        }
        lemma_no_date_property(rest);
        assert(!(props[props.len() - 1].1.value is Date));
    }
}

/// Two entries made of the same page with the same resolved titles agree in
/// everything their events are made of: the pipeline gives the same output
/// each time it runs on an unchanged response.
pub proof fn lemma_entries_deterministic(
    a: DateEntry,
    b: DateEntry,
    page: NotionPage,
    titles: Seq<(String, String)>,
)
    requires
        entry_of(a, page, titles),
        entry_of(b, page, titles),
    ensures
        a.id@ == b.id@,
        a.title@ == b.title@,
        a.date == b.date,
        description_spec(pairs_view(a.additional@), a.url@) == description_spec(
            pairs_view(b.additional@),
            b.url@,
        ),
        start_bound(a.date) == start_bound(b.date),
        end_bound(a.date) == end_bound(b.date),
{
}

/// The pages that have a normalisable date, in order.
pub open spec fn qualifying(pages: Seq<NotionPage>) -> Seq<NotionPage>
    decreases pages.len(),
{
    if pages.len() == 0 {
        Seq::empty()
    } else {
        qualifying(pages.drop_last()) + if page_date(pages.last()) is Some {
            seq![pages.last()]
        } else {
            Seq::empty()
        }
    }
}

/// The entries of the pages of a query response that have a normalisable date,
/// one for each, in the pages' order.
pub fn process_pages(response: &NotionDatabaseResponse, titles: &Vec<(String, String)>) -> (r: Vec<
    DateEntry,
>)
    requires
        forall|i: int| 0 <= i < response.pages@.len() ==> (#[trigger] response.pages@[i]).wf(),
    ensures
        r@.len() == qualifying(response.pages@).len(),
        forall|k: int|
            0 <= k < r@.len() ==> entry_of(#[trigger] r@[k], qualifying(response.pages@)[k], titles@)
                && r@[k].wf(),
{
    let pages = &response.pages;
    let mut r: Vec<DateEntry> = Vec::new();
    let mut i: usize = 0;
    while i < pages.len()
        invariant
            i <= pages@.len(),
            pages == &response.pages,
            forall|i: int| 0 <= i < response.pages@.len() ==> (#[trigger] response.pages@[i]).wf(),
            r@.len() == qualifying(pages@.take(i as int)).len(),
            forall|k: int|
                0 <= k < r@.len() ==> entry_of(#[trigger] r@[k], qualifying(pages@.take(i as int))[k], titles@)
                    && r@[k].wf(),
        decreases pages@.len() - i,
    {
        assert(pages@.take(i as int + 1).drop_last() =~= pages@.take(i as int));
        let ghost q = qualifying(pages@.take(i as int));
        match process_page(&pages[i], titles) {
            Some(e) => {
                r.push(e);
                assert(qualifying(pages@.take(i as int + 1)) =~= q + seq![pages@[i as int]]);
            },
            None => {
                assert(qualifying(pages@.take(i as int + 1)) =~= q);
            },
        }
        i = i + 1;
    }
    assert(pages@.take(pages@.len() as int) =~= pages@);
    r
}

pub open spec fn relation_id_words(v: Seq<NotionRelation>) -> Seq<Seq<char>> {
    Seq::new(v.len(), |i: int| v[i].id@)
}

/// The ids of the pages that the reference properties point to, in order.
pub open spec fn page_relation_ids(props: Seq<(String, NotionProperty)>) -> Seq<Seq<char>>
    decreases props.len(),
{
    if props.len() == 0 {
        Seq::empty()
    } else {
        page_relation_ids(props.drop_last()) + match props.last().1.value {
            NotionPropertyValue::Relation(v) => relation_id_words(v@),
            _ => Seq::empty(),
        }
    }
}

pub open spec fn strings_view(v: Seq<String>) -> Seq<Seq<char>> {
    Seq::new(v.len(), |i: int| v[i]@)
}

/// The ids of the pages that a page's reference properties point to: the
/// pages whose titles `process_page` needs.
pub fn relation_ids(page: &NotionPage) -> (r: Vec<String>)
    ensures
        strings_view(r@) == page_relation_ids(page.properties@),
{
    let props = &page.properties;
    let mut r: Vec<String> = Vec::new();
    let mut i: usize = 0;
    while i < props.len()
        invariant
            i <= props@.len(),
            strings_view(r@) == page_relation_ids(props@.take(i as int)),
        decreases props@.len() - i,
    {
        assert(props@.take(i as int + 1).drop_last() =~= props@.take(i as int));
        match &props[i].1.value {
            NotionPropertyValue::Relation(v) => {
                let ghost base = r@;
                let mut j: usize = 0;
                while j < v.len()
                    invariant
                        j <= v@.len(),
                        strings_view(base) == page_relation_ids(props@.take(i as int)),
                        strings_view(r@) == strings_view(base) + relation_id_words(v@).take(j as int),
                    decreases v@.len() - j,
                {
                    let ghost old_r = r@;
                    let id = v[j].id.clone();
                    r.push(id);
                    assert(strings_view(r@) =~= strings_view(old_r).push(id@));
                    assert(relation_id_words(v@).take(j as int + 1) =~= relation_id_words(v@).take(j as int).push(v@[j as int].id@));
                    assert(strings_view(r@) =~= strings_view(base) + relation_id_words(v@).take(j as int + 1));
                    j = j + 1;
                }
                assert(relation_id_words(v@).take(v@.len() as int) =~= relation_id_words(v@));
            },
            _ => {
                assert(page_relation_ids(props@.take(i as int + 1)) =~= page_relation_ids(props@.take(i as int)));
            },
        }
        i = i + 1;
    }
    assert(props@.take(props@.len() as int) =~= props@);
    r
}

} // verus!
