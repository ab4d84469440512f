use vstd::prelude::*;

verus! {

#[verifier::external_type_specification]
#[verifier::external_body]
pub struct ExJsonValue(serde_json::Value);

/// Relies on `Clone` of serde_json's `Value`, which the data of ignored
/// property kinds is carried through with; nothing is claimed of the copy.
pub assume_specification[ <serde_json::Value as Clone>::clone ](v: &serde_json::Value) -> serde_json::Value;

/// The answer to a database query: the pages it matched.
#[derive(Debug, Clone, PartialEq)]
pub struct NotionDatabaseResponse {
    pub object: String,
    pub pages: Vec<NotionPage>,
}

/// One record of a database. Its properties are kept in the order in which
/// they were handed over; their names are unique (see `wf`).
#[derive(Debug, Clone, PartialEq)]
pub struct NotionPage {
    pub id: String,
    pub icon: Option<NotionIcon>,
    pub url: String,
    pub properties: Vec<(String, NotionProperty)>,
    pub created_time: String,
    pub last_edited_time: String,
    pub archived: bool,
}

#[derive(Debug, Clone, PartialEq)]
pub struct NotionIcon {
    pub emoji: Option<String>,
}

#[derive(Debug, Clone, PartialEq)]
pub struct NotionProperty {
    pub value: NotionPropertyValue,
}

/// The value of a property, by kind. A number is held as its decimal text.
#[derive(Debug, Clone, PartialEq)]
pub enum NotionPropertyValue {
    Date(Option<NotionDate>),
    Title(Vec<NotionText>),
    Number(Option<String>),
    RichText(Vec<NotionText>),
    Url(Option<String>),
    Select(Option<NotionSelect>),
    MultiSelect(Vec<NotionSelect>),
    Relation(Vec<NotionRelation>),
    People(Vec<NotionPerson>),
    Status(NotionSelect),
    Checkbox(serde_json::Value),
    CreatedBy(serde_json::Value),
    CreatedTime(serde_json::Value),
    Email(serde_json::Value),
    Files(serde_json::Value),
    Formula(serde_json::Value),
    LastEditedBy(serde_json::Value),
    LastEditedTime(serde_json::Value),
    PhoneNumber(serde_json::Value),
    Rollup(serde_json::Value),
    Unknown,
}

#[derive(Debug, Clone, PartialEq)]
pub struct NotionText {
    pub type_: NotionTextType,
    pub plain_text: String,
}

#[derive(Debug, Clone, Copy, PartialEq, Eq)]
pub enum NotionTextType {
    Mention,
    Text,
}

#[derive(Debug, Clone, PartialEq)]
pub struct NotionDate {
    pub start: String,
    pub end: Option<String>,
    pub timezone: Option<String>,
}

#[derive(Debug, Clone, PartialEq)]
pub struct NotionRelation {
    pub id: String,
}

#[derive(Debug, Clone, PartialEq)]
pub struct NotionPerson {
    pub id: String,
    pub name: Option<String>,
}

#[derive(Debug, Clone, Copy, PartialEq, Eq)]
pub enum NotionSelectType {
    NotStarted,
    InProgress,
    Done,
    Unknown,
}

#[derive(Debug, Clone, PartialEq)]
pub struct NotionSelect {
    pub id: NotionSelectType,
    pub name: String,
}

/// The first fragment of the last title property that has one; empty if none has.
pub open spec fn base_title(props: Seq<(String, NotionProperty)>) -> Seq<char>
    decreases props.len(),
{
    if props.len() == 0 {
        Seq::empty()
    } else {
        match props.last().1.value {
            NotionPropertyValue::Title(v) if v@.len() > 0 => v@[0].plain_text@,
            _ => base_title(props.drop_last()),
        }
    }
}

/// A title with the page's emoji, if it has one, and a space in front.
pub open spec fn with_icon(icon: Option<NotionIcon>, t: Seq<char>) -> Seq<char> {
    match icon {
        Some(NotionIcon { emoji: Some(e) }) => e@ + seq![' '] + t,
        _ => t,
    }
}

/// No two properties share a name.
pub open spec fn names_unique(props: Seq<(String, NotionProperty)>) -> bool {
    forall|i: int, j: int| 0 <= i < j < props.len() ==> props[i].0@ != props[j].0@
}

impl NotionPage {
    /// The properties form a map from name to value.
    pub open spec fn wf(self) -> bool {
        names_unique(self.properties@)
    }

    pub open spec fn title_spec(self) -> Seq<char> {
        with_icon(self.icon, base_title(self.properties@))
    }

    /// The page's display title: the first fragment of its title property,
    /// after the page's emoji and a space where it has one.
    pub fn title(&self) -> (r: String)
        ensures
            r@ == self.title_spec(),
    {
        let title = base_title_exec(&self.properties);
        prefix_icon(&self.icon, title)
    }
}

pub fn base_title_exec(props: &Vec<(String, NotionProperty)>) -> (r: String)
    ensures
        r@ == base_title(props@),
{
    let mut title = String::new();
    let mut i: usize = 0;
    while i < props.len()
        invariant
            i <= props@.len(),
            title@ == base_title(props@.take(i as int)),
        decreases props@.len() - i,
    {
        assert(props@.take(i as int + 1).drop_last() =~= props@.take(i as int));
        match &props[i].1.value {
            NotionPropertyValue::Title(v) => {
                if v.len() > 0 {
                    title = v[0].plain_text.clone();
                }
            },
            _ => {},
        }
        i = i + 1;
    }
    assert(props@.take(props@.len() as int) =~= props@);
    title
}

pub fn prefix_icon(icon: &Option<NotionIcon>, t: String) -> (r: String)
    ensures
        r@ == with_icon(*icon, t@),
{
    match icon {
        Some(NotionIcon { emoji: Some(e) }) => {
            let mut r = e.clone();
            r.append(" ");
            r.append(t.as_str());
            proof {
                reveal_strlit(" ");
            }
            r
        },
        _ => t,
    }
}

} // verus!
