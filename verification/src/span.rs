use vstd::prelude::*;

use crate::level::Level;

verus! {

/// The value held by a field of a span or an event.
#[derive(Debug, PartialEq, Eq)]
pub enum FieldValue {
    /// Declared, with no value recorded yet.
    Empty,
    /// A string slice.
    Str(String),
    /// A signed integer.
    I64(i64),
    /// A value recorded through its `Display` form, which is the string held.
    Display(String),
    /// A value recorded through its `Debug` form, which is the string held.
    Debug(String),
}

/// The mathematical value of a [`FieldValue`].
pub enum FieldView {
    Empty,
    Str(Seq<char>),
    I64(i64),
    Display(Seq<char>),
    Debug(Seq<char>),
}

impl View for FieldValue {
    type V = FieldView;

    open spec fn view(&self) -> FieldView {
        match self {
            FieldValue::Empty => FieldView::Empty,
            FieldValue::Str(s) => FieldView::Str(s@),
            FieldValue::I64(i) => FieldView::I64(*i),
            FieldValue::Display(s) => FieldView::Display(s@),
            FieldValue::Debug(s) => FieldView::Debug(s@),
        }
    }
}

impl FieldValue {
    /// A copy of this value.
    pub fn duplicate(&self) -> (r: FieldValue)
        ensures
            r@ == self@,
    {
        match self {
            FieldValue::Empty => FieldValue::Empty,
            FieldValue::Str(s) => FieldValue::Str(s.clone()),
            FieldValue::I64(i) => FieldValue::I64(*i),
            FieldValue::Display(s) => FieldValue::Display(s.clone()),
            FieldValue::Debug(s) => FieldValue::Debug(s.clone()),
        }
    }
}

/// A named field and its value.
#[derive(Debug, PartialEq, Eq)]
pub struct SpanField {
    pub name: String,
    pub value: FieldValue,
}

impl View for SpanField {
    type V = (Seq<char>, FieldView);

    open spec fn view(&self) -> (Seq<char>, FieldView) {
        (self.name@, self.value@)
    }
}

/// A field named `name` that holds `value`.
pub fn field(name: &str, value: FieldValue) -> (f: SpanField)
    ensures
        f@ == (name@, value@),
{
    SpanField { name: String::from_str(name), value }
}

/// The views of a sequence of fields, in order.
pub open spec fn fields_view(fields: Seq<SpanField>) -> Seq<(Seq<char>, FieldView)> {
    fields.map_values(|f: SpanField| f@)
}

/// Whether `i` is the first position of `fields` that holds a field named `name`.
pub open spec fn is_first_named(fields: Seq<(Seq<char>, FieldView)>, name: Seq<char>, i: int) -> bool {
    &&& 0 <= i < fields.len()
    &&& fields[i].0 == name
    &&& forall|j: int| 0 <= j < i ==> #[trigger] fields[j].0 != name
}

/// Whether `fields` holds a field named `name`.
pub open spec fn declares(fields: Seq<(Seq<char>, FieldView)>, name: Seq<char>) -> bool {
    exists|i: int| 0 <= i < fields.len() && #[trigger] fields[i].0 == name
}

/// The first position of `fields` that holds a field named `name`.
pub open spec fn first_named(fields: Seq<(Seq<char>, FieldView)>, name: Seq<char>) -> int {
    choose|i: int| is_first_named(fields, name, i)
}

/// The value of the field named `name`, the first one where several share
/// the name; `None` where no field has that name.
pub open spec fn field_lookup(fields: Seq<(Seq<char>, FieldView)>, name: Seq<char>) -> Option<FieldView> {
    if declares(fields, name) {
        Some(fields[first_named(fields, name)].1)
    } else {
        None
    }
}

/// `fields` after `value` is recorded for the field named `name`: the first
/// field with that name takes the value; where no field has that name,
/// nothing changes.
pub open spec fn record_field(
    fields: Seq<(Seq<char>, FieldView)>,
    name: Seq<char>,
    value: FieldView,
) -> Seq<(Seq<char>, FieldView)> {
    if declares(fields, name) {
        fields.update(first_named(fields, name), (name, value))
    } else {
        fields
    }
}

/// `fields` after each of `records` is recorded, in order.
pub open spec fn record_all(
    fields: Seq<(Seq<char>, FieldView)>,
    records: Seq<(Seq<char>, FieldView)>,
) -> Seq<(Seq<char>, FieldView)>
    decreases records.len(),
{
    if records.len() == 0 {
        fields
    } else {
        record_field(record_all(fields, records.drop_last()), records.last().0, records.last().1)
    }
}

/// Where `fields` declares `name`, its first field of that name is at `first_named`.
pub proof fn lemma_first_named(fields: Seq<(Seq<char>, FieldView)>, name: Seq<char>, k: int)
    requires
        0 <= k < fields.len(),
        fields[k].0 == name,
    ensures
        declares(fields, name),
        is_first_named(fields, name, first_named(fields, name)),
        first_named(fields, name) <= k,
    decreases k,
{
    if exists|j: int| 0 <= j < k && #[trigger] fields[j].0 == name {
        let j = choose|j: int| 0 <= j < k && #[trigger] fields[j].0 == name;
        lemma_first_named(fields, name, j);
    } else {
        assert(is_first_named(fields, name, k));
    }
    let f = first_named(fields, name);
    if f > k {
        assert(fields[k].0 != name);
    }
}

/// Two first positions of a name are one position.
pub proof fn lemma_first_named_unique(
    fields: Seq<(Seq<char>, FieldView)>,
    name: Seq<char>,
    i: int,
    j: int,
)
    requires
        is_first_named(fields, name, i),
        is_first_named(fields, name, j),
    ensures
        i == j,
{
    if i < j {
        assert(fields[i].0 != name);
    } else if j < i {
        assert(fields[j].0 != name);
    }
}

/// The names of `fields`, in order.
pub open spec fn field_names(fields: Seq<(Seq<char>, FieldView)>) -> Seq<Seq<char>> {
    fields.map_values(|f: (Seq<char>, FieldView)| f.0)
}

/// Whether no two fields of `fields` share a name.
pub open spec fn names_distinct(fields: Seq<(Seq<char>, FieldView)>) -> bool {
    forall|i: int, j: int|
        0 <= i < fields.len() && 0 <= j < fields.len() && i != j ==> #[trigger] fields[i].0
            != #[trigger] fields[j].0
}

/// Reading a field after recording a value for it gives that value, where
/// the span declares the field.
pub proof fn law_record_then_read(
    fields: Seq<(Seq<char>, FieldView)>,
    name: Seq<char>,
    value: FieldView,
)
    requires
        declares(fields, name),
    ensures
        field_lookup(record_field(fields, name, value), name) == Some(value),
{
    let i = choose|i: int| 0 <= i < fields.len() && #[trigger] fields[i].0 == name;
    lemma_first_named(fields, name, i);
    let f = first_named(fields, name);
    let after = record_field(fields, name, value);
    assert(after[f].0 == name);
    assert(is_first_named(after, name, f));
    lemma_first_named(after, name, f);
    lemma_first_named_unique(after, name, f, first_named(after, name));
}

/// Recording a value for one field leaves what every other field reads.
pub proof fn law_record_keeps_other_fields(
    fields: Seq<(Seq<char>, FieldView)>,
    name: Seq<char>,
    value: FieldView,
    other: Seq<char>,
)
    requires
        other != name,
    ensures
        field_lookup(record_field(fields, name, value), other) == field_lookup(fields, other),
{
    let after = record_field(fields, name, value);
    law_record_keeps_names(fields, name, value);
    assert(after.len() == fields.len()) by {
        assert(field_names(after).len() == field_names(fields).len());
    }
    assert forall|k: int| 0 <= k < fields.len() implies #[trigger] after[k].0 == fields[k].0 by {
        assert(field_names(after)[k] == field_names(fields)[k]);
    }
    if declares(fields, other) {
        let i = choose|i: int| 0 <= i < fields.len() && #[trigger] fields[i].0 == other;
        lemma_first_named(fields, other, i);
        let f = first_named(fields, other);
        assert(after[f].0 == other);
        assert(is_first_named(after, other, f));
        lemma_first_named(after, other, f);
        lemma_first_named_unique(after, other, f, first_named(after, other));
        if declares(fields, name) {
            let g = first_named(fields, name);
            lemma_first_named(fields, name, choose|i: int| 0 <= i < fields.len() && #[trigger] fields[i].0 == name);
            assert(g != f);
        }
    } else {
        assert forall|k: int| 0 <= k < after.len() implies #[trigger] after[k].0 != other by {
            assert(after[k].0 == fields[k].0);
        }
    }
}

/// Recording a value for a field that the span did not declare changes
/// nothing.
pub proof fn law_record_undeclared_is_ignored(
    fields: Seq<(Seq<char>, FieldView)>,
    name: Seq<char>,
    value: FieldView,
)
    requires
        !declares(fields, name),
    ensures
        record_field(fields, name, value) == fields,
{
}

/// Recording values never changes which fields a span declares, nor their
/// order.
pub proof fn law_record_keeps_names(
    fields: Seq<(Seq<char>, FieldView)>,
    name: Seq<char>,
    value: FieldView,
)
    ensures
        field_names(record_field(fields, name, value)) == field_names(fields),
{
    if declares(fields, name) {
        let i = choose|i: int| 0 <= i < fields.len() && #[trigger] fields[i].0 == name;
        lemma_first_named(fields, name, i);
    }
    assert(field_names(record_field(fields, name, value)) =~= field_names(fields));
}

/// Recording any sequence of values never changes which fields a span
/// declares, nor their order.
pub proof fn law_record_all_keeps_names(
    fields: Seq<(Seq<char>, FieldView)>,
    records: Seq<(Seq<char>, FieldView)>,
)
    ensures
        field_names(record_all(fields, records)) == field_names(fields),
    decreases records.len(),
{
    if records.len() > 0 {
        law_record_all_keeps_names(fields, records.drop_last());
        law_record_keeps_names(
            record_all(fields, records.drop_last()),
            records.last().0,
            records.last().1,
        );
    }
}

/// The value of the last of `records` that is for the field `name`, if any.
pub open spec fn last_record(records: Seq<(Seq<char>, FieldView)>, name: Seq<char>) -> Option<
    FieldView,
>
    decreases records.len(),
{
    if records.len() == 0 {
        None
    } else if records.last().0 == name {
        Some(records.last().1)
    } else {
        last_record(records.drop_last(), name)
    }
}

/// After a sequence of records, a declared field reads as the last value
/// recorded for it, or as before where none was; a field that the span does
/// not declare reads as nothing, whatever was recorded for it.
pub proof fn law_record_all_lookup(
    fields: Seq<(Seq<char>, FieldView)>,
    records: Seq<(Seq<char>, FieldView)>,
    name: Seq<char>,
)
    ensures
        field_lookup(record_all(fields, records), name) == (if declares(fields, name) {
            match last_record(records, name) {
                Some(v) => Some(v),
                None => field_lookup(fields, name),
            }
        } else {
            None
        }),
    decreases records.len(),
{
    if records.len() > 0 {
        let prefix = records.drop_last();
        let g = record_all(fields, prefix);
        law_record_all_lookup(fields, prefix, name);
        law_record_all_keeps_names(fields, prefix);
        lemma_declares_by_names(fields, name);
        lemma_declares_by_names(g, name);
        let (n, v) = records.last();
        if n == name {
            if declares(g, name) {
                law_record_then_read(g, name, v);
            } else {
                law_record_undeclared_is_ignored(g, name, v);
            }
        } else {
            law_record_keeps_other_fields(g, n, v, name);
        }
    }
}

/// Where no two fields share a name, reading the field at any position gives
/// the value at that position.
pub proof fn lemma_lookup_distinct(fields: Seq<(Seq<char>, FieldView)>, k: int)
    requires
        names_distinct(fields),
        0 <= k < fields.len(),
    ensures
        field_lookup(fields, fields[k].0) == Some(fields[k].1),
{
    assert(is_first_named(fields, fields[k].0, k));
    lemma_first_named(fields, fields[k].0, k);
    lemma_first_named_unique(fields, fields[k].0, k, first_named(fields, fields[k].0));
}

/// A span declares a name exactly where one of its names is that name.
pub proof fn lemma_declares_by_names(fields: Seq<(Seq<char>, FieldView)>, name: Seq<char>)
    ensures
        declares(fields, name) == field_names(fields).contains(name),
{
    if declares(fields, name) {
        let i = choose|i: int| 0 <= i < fields.len() && #[trigger] fields[i].0 == name;
        assert(field_names(fields)[i] == name);
    }
    if field_names(fields).contains(name) {
        let i = choose|i: int| 0 <= i < field_names(fields).len() && field_names(fields)[i] == name;
        assert(fields[i].0 == name);
    }
}

/// A span: its level, its name, and its fields, each declared when the span
/// was created, in the order of declaration.
#[derive(Debug, PartialEq, Eq)]
pub struct SpanRecord {
    pub level: Level,
    pub name: String,
    pub fields: Vec<SpanField>,
}

/// The mathematical value of a [`SpanRecord`].
pub struct SpanView {
    pub level: Level,
    pub name: Seq<char>,
    pub fields: Seq<(Seq<char>, FieldView)>,
}

impl View for SpanRecord {
    type V = SpanView;

    open spec fn view(&self) -> SpanView {
        SpanView { level: self.level, name: self.name@, fields: fields_view(self.fields@) }
    }
}

/// An event: its level, its fields, and its message, if it has one.
#[derive(Debug, PartialEq, Eq)]
pub struct EventRecord {
    pub level: Level,
    pub fields: Vec<SpanField>,
    pub message: Option<String>,
}

/// Creates a span at a level chosen at run time, named `name`, that declares
/// `fields` with their initial values.
pub fn dyn_span(level: Level, name: &str, fields: Vec<SpanField>) -> (s: SpanRecord)
    ensures
        s@.level == level,
        s@.name == name@,
        s@.fields == fields_view(fields@),
{
    SpanRecord { level, name: String::from_str(name), fields }
}

/// Creates an event at a level chosen at run time, with `fields` and an
/// optional message.
pub fn dyn_event(level: Level, fields: Vec<SpanField>, message: Option<&str>) -> (e: EventRecord)
    ensures
        e.level == level,
        fields_view(e.fields@) == fields_view(fields@),
        match message {
            Some(m) => e.message matches Some(em) && em@ == m@,
            None => e.message is None,
        },
{
    let message = match message {
        Some(m) => Some(String::from_str(m)),
        None => None,
    };
    EventRecord { level, fields, message }
}

impl SpanRecord {
    /// Records `value` for the field named `name`. A span only takes values
    /// for the fields it declared: for another name nothing changes.
    pub fn record(&mut self, name: &str, value: FieldValue)
        ensures
            final(self)@.level == old(self)@.level,
            final(self)@.name == old(self)@.name,
            final(self)@.fields == record_field(old(self)@.fields, name@, value@),
    {
        let key = String::from_str(name);
        let ghost fs = old(self)@.fields;
        let mut i: usize = 0;
        while i < self.fields.len()
            invariant
                i <= self.fields.len(),
                self@ == old(self)@,
                fs == old(self)@.fields,
                key@ == name@,
                forall|j: int| 0 <= j < i ==> #[trigger] fs[j].0 != name@,
            decreases self.fields.len() - i,
        {
            if self.fields[i].name == key {
                proof {
                    assert(fs[i as int].0 == name@);
                    assert(is_first_named(fs, name@, i as int));
                    lemma_first_named(fs, name@, i as int);
                    lemma_first_named_unique(fs, name@, i as int, first_named(fs, name@));
                }
                self.fields.set(i, SpanField { name: key, value });
                assert(fields_view(self.fields@) =~= fs.update(i as int, (name@, value@)));
                return;
            }
            assert(fs[i as int].0 != name@);
            i = i + 1;
        }
    }

    /// The value of the field named `name`; `None` where the span declares no
    /// such field.
    pub fn get(&self, name: &str) -> (r: Option<&FieldValue>)
        ensures
            match r {
                Some(v) => field_lookup(self@.fields, name@) == Some(v@),
                None => field_lookup(self@.fields, name@) is None,
            },
    {
        let key = String::from_str(name);
        let ghost fs = self@.fields;
        let mut i: usize = 0;
        while i < self.fields.len()
            invariant
                i <= self.fields.len(),
                fs == self@.fields,
                key@ == name@,
                forall|j: int| 0 <= j < i ==> #[trigger] fs[j].0 != name@,
            decreases self.fields.len() - i,
        {
            if self.fields[i].name == key {
                proof {
                    assert(fs[i as int].0 == name@);
                    assert(is_first_named(fs, name@, i as int));
                    lemma_first_named(fs, name@, i as int);
                    lemma_first_named_unique(fs, name@, i as int, first_named(fs, name@));
                }
                return Some(&self.fields[i].value);
            }
            assert(fs[i as int].0 != name@);
            i = i + 1;
        }
        None
    }
}

} // verus!
