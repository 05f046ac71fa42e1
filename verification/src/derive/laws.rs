//! What holds of every described structure: that its inventory covers what
//! its load reads, when its load succeeds and when it fails, how inventories
//! nest, what a failure says, and that marking a variable as optional is
//! information only.

use vstd::prelude::*;

use crate::derive::field::{
    field_inventory, field_load, field_wf, fields_inventory, fields_load, fields_wf, has_variant,
    input_load, inventory, load_leaf, parse_leaf, variant_text, Field, Input, Source,
};
use crate::derive::value::{FieldErrorView, ValueView};
use crate::utils::from_env::{
    agree_on, is_absent, is_missing, lookup, missing, Bindings, Failure, ItemInfo,
};

verus! {

/// Two tables that agree on a list of descriptors agree on each part of it.
pub proof fn lemma_agree_on_parts(
    first: Bindings,
    second: Bindings,
    head: Seq<ItemInfo>,
    tail: Seq<ItemInfo>,
)
    requires
        agree_on(first, second, head + tail),
    ensures
        agree_on(first, second, head),
        agree_on(first, second, tail),
{
    let all = head + tail;
    assert forall|i: int| 0 <= i < head.len() implies lookup(first, (#[trigger] head[i]).var)
        == lookup(second, head[i].var) by {
        assert(all[i] == head[i]);
    }
    assert forall|i: int| 0 <= i < tail.len() implies lookup(first, (#[trigger] tail[i]).var)
        == lookup(second, tail[i].var) by {
        assert(all[head.len() + i] == tail[i]);
    }
}

/// A field reads no variable that its part of the inventory does not name.
pub proof fn lemma_field_reads_inventory(
    field: Field,
    idx: int,
    first: Bindings,
    second: Bindings,
)
    requires
        agree_on(first, second, field_inventory(field)),
    ensures
        field_load(field, idx, first) == field_load(field, idx, second),
    decreases field,
{
    match field.source {
        Source::Default => {},
        Source::Var { env_var, .. } => {
            assert(field_inventory(field)[0].var == env_var@);
        },
        Source::Nested { input, .. } => {
            lemma_load_reads_inventory(input, first, second);
        },
    }
}

/// A list of fields reads no variable that its part of the inventory does
/// not name.
pub proof fn lemma_fields_read_inventory(fields: Seq<Field>, first: Bindings, second: Bindings)
    requires
        agree_on(first, second, fields_inventory(fields)),
    ensures
        fields_load(fields, first) == fields_load(fields, second),
    decreases fields,
{
    if fields.len() > 0 {
        lemma_agree_on_parts(
            first,
            second,
            fields_inventory(fields.drop_last()),
            field_inventory(fields.last()),
        );
        lemma_fields_read_inventory(fields.drop_last(), first, second);
        lemma_field_reads_inventory(fields.last(), fields.len() - 1, first, second);
    }
}

/// The inventory of a structure names every variable that its load reads:
/// two tables that bind the names of the inventory alike load alike,
/// whatever else they bind.
pub proof fn lemma_load_reads_inventory(input: Input, first: Bindings, second: Bindings)
    requires
        agree_on(first, second, inventory(input)),
    ensures
        input_load(input, first) == input_load(input, second),
    decreases input,
{
    lemma_fields_read_inventory(input.fields@, first, second);
}

/// Binding or unbinding a variable that the inventory does not name leaves
/// the load as it was.
pub proof fn lemma_unlisted_variable_changes_nothing(
    input: Input,
    bindings: Bindings,
    name: Seq<char>,
    value: Option<Seq<char>>,
)
    requires
        forall|i: int| 0 <= i < inventory(input).len() ==> (#[trigger] inventory(input)[i]).var != name,
    ensures
        input_load(input, bindings.insert(name, value)) == input_load(input, bindings),
        input_load(input, bindings.remove(name)) == input_load(input, bindings),
{
    lemma_load_reads_inventory(input, bindings, bindings.insert(name, value));
    lemma_load_reads_inventory(input, bindings, bindings.remove(name));
}

/// Whether every variable that the field reads holds a text that parses.
/// A variable may only be missing or blank where the field holds an
/// `Option` of what is read from it.
pub open spec fn field_supplied(field: Field, bindings: Bindings) -> bool
    decreases field,
{
    match field.source {
        Source::Default => true,
        Source::Var { env_var, ty, wrapped, .. } => {
            let found = lookup(bindings, env_var@);
            if is_absent(found) {
                wrapped
            } else {
                parse_leaf(ty, found->Ok_0) is Ok
            }
        },
        Source::Nested { input, .. } => fields_supplied(input.fields@, bindings),
    }
}

/// Whether every field of the list is supplied.
pub open spec fn fields_supplied(fields: Seq<Field>, bindings: Bindings) -> bool
    decreases fields,
{
    fields.len() > 0 ==> fields_supplied(fields.drop_last(), bindings) && field_supplied(
        fields.last(),
        bindings,
    )
}

/// The value of a supplied field: what the text of its variable parses to,
/// `None` for a missing `Option`, the record of a nested structure.
pub open spec fn field_value(field: Field, bindings: Bindings) -> ValueView
    decreases field,
{
    match field.source {
        Source::Default => ValueView::Skipped,
        Source::Var { env_var, ty, wrapped, .. } => {
            let found = lookup(bindings, env_var@);
            if is_absent(found) {
                ValueView::Optional(None)
            } else if wrapped {
                ValueView::Optional(Some(Box::new(parse_leaf(ty, found->Ok_0)->Ok_0)))
            } else {
                parse_leaf(ty, found->Ok_0)->Ok_0
            }
        },
        Source::Nested { input, wrapped } => {
            let record = ValueView::Record(field_values(input.fields@, bindings));
            if wrapped {
                ValueView::Optional(Some(Box::new(record)))
            } else {
                record
            }
        },
    }
}

/// The values of a list of supplied fields, in order.
pub open spec fn field_values(fields: Seq<Field>, bindings: Bindings) -> Seq<ValueView>
    decreases fields,
{
    if fields.len() == 0 {
        Seq::empty()
    } else {
        field_values(fields.drop_last(), bindings).push(field_value(fields.last(), bindings))
    }
}

/// A supplied field loads, and to the value that its variables hold.
pub proof fn lemma_supplied_field_loads(field: Field, idx: int, bindings: Bindings)
    requires
        field_supplied(field, bindings),
    ensures
        field_load(field, idx, bindings) == Ok::<ValueView, Failure<FieldErrorView>>(
            field_value(field, bindings),
        ),
    decreases field,
{
    match field.source {
        Source::Default => {},
        Source::Var { .. } => {},
        Source::Nested { input, .. } => {
            lemma_supplied_fields_load(input.fields@, bindings);
        },
    }
}

/// A list of supplied fields loads, each field to the value that its
/// variables hold.
pub proof fn lemma_supplied_fields_load(fields: Seq<Field>, bindings: Bindings)
    requires
        fields_supplied(fields, bindings),
    ensures
        fields_load(fields, bindings) == Ok::<Seq<ValueView>, Failure<FieldErrorView>>(
            field_values(fields, bindings),
        ),
    decreases fields,
{
    if fields.len() > 0 {
        lemma_supplied_fields_load(fields.drop_last(), bindings);
        lemma_supplied_field_loads(fields.last(), fields.len() - 1, bindings);
    }
}

/// Where every variable that a structure reads holds a text that parses,
/// the load succeeds, and each field of the record is the value that the
/// field's variables hold.
pub proof fn lemma_supplied_input_loads(input: Input, bindings: Bindings)
    requires
        fields_supplied(input.fields@, bindings),
    ensures
        input_load(input, bindings) == Ok::<ValueView, Failure<FieldErrorView>>(
            ValueView::Record(field_values(input.fields@, bindings)),
        ),
{
    lemma_supplied_fields_load(input.fields@, bindings);
}

/// Whether the field reads the variable `name` and cannot do without it: it
/// is read from `name` and holds no `Option`, or it holds, without an
/// `Option`, a structure with such a field.
pub open spec fn field_demands(field: Field, name: Seq<char>) -> bool
    decreases field,
{
    match field.source {
        Source::Default => false,
        Source::Var { env_var, wrapped, .. } => !wrapped && env_var@ == name,
        Source::Nested { input, wrapped } => !wrapped && fields_demand(input.fields@, name),
    }
}

/// Whether a field of the list cannot do without the variable `name`.
pub open spec fn fields_demand(fields: Seq<Field>, name: Seq<char>) -> bool
    decreases fields,
{
    fields.len() > 0 && (fields_demand(fields.drop_last(), name) || field_demands(
        fields.last(),
        name,
    ))
}

/// A field that cannot do without a variable fails where the variable is
/// not bound.
pub proof fn lemma_field_fails_unbound(
    field: Field,
    idx: int,
    name: Seq<char>,
    bindings: Bindings,
)
    requires
        field_demands(field, name),
        !bindings.contains_key(name),
    ensures
        field_load(field, idx, bindings) is Err,
    decreases field,
{
    match field.source {
        Source::Default => {},
        Source::Var { .. } => {},
        Source::Nested { input, .. } => {
            lemma_fields_fail_unbound(input.fields@, name, bindings);
        },
    }
}

/// A list with a field that cannot do without a variable fails where the
/// variable is not bound.
pub proof fn lemma_fields_fail_unbound(fields: Seq<Field>, name: Seq<char>, bindings: Bindings)
    requires
        fields_demand(fields, name),
        !bindings.contains_key(name),
    ensures
        fields_load(fields, bindings) is Err,
    decreases fields,
{
    if fields_demand(fields.drop_last(), name) {
        lemma_fields_fail_unbound(fields.drop_last(), name, bindings);
    } else {
        lemma_field_fails_unbound(fields.last(), fields.len() - 1, name, bindings);
    }
}

/// Taking away a variable that a structure cannot do without makes its
/// load fail, whatever the table binds besides.
pub proof fn lemma_load_fails_without(input: Input, name: Seq<char>, bindings: Bindings)
    requires
        fields_demand(input.fields@, name),
    ensures
        input_load(input, bindings.remove(name)) is Err,
{
    lemma_fields_fail_unbound(input.fields@, name, bindings.remove(name));
}

/// The check of presence fails exactly where some descriptor is required
/// and not bound.
pub proof fn lemma_missing_iff(items: Seq<ItemInfo>, bindings: Bindings)
    ensures
        missing(items, bindings).len() > 0 <==> exists|i: int|
            0 <= i < items.len() && is_missing(#[trigger] items[i], bindings),
{
    let pred = |info: ItemInfo| is_missing(info, bindings);
    let found = items.filter(pred);
    if found.len() > 0 {
        items.lemma_filter_pred(pred, 0);
        items.lemma_filter_contains_rev(pred, found[0]);
        let i = choose|i: int| 0 <= i < items.len() && items[i] == found[0];
        assert(is_missing(items[i], bindings));
    }
    if exists|i: int| 0 <= i < items.len() && is_missing(#[trigger] items[i], bindings) {
        let i = choose|i: int| 0 <= i < items.len() && is_missing(#[trigger] items[i], bindings);
        assert(pred(items[i]));
        items.lemma_filter_contains(pred, i);
    }
}

/// A descriptor that is required and not bound is among the missing.
pub proof fn lemma_missing_lists(items: Seq<ItemInfo>, i: int, bindings: Bindings)
    requires
        0 <= i < items.len(),
        is_missing(items[i], bindings),
    ensures
        missing(items, bindings).contains(items[i]),
{
    let pred = |info: ItemInfo| is_missing(info, bindings);
    assert(pred(items[i]));
    items.lemma_filter_contains(pred, i);
}

/// Whether the list of descriptors marks the variable `name` as required.
pub open spec fn lists_required(items: Seq<ItemInfo>, name: Seq<char>) -> bool {
    exists|i: int| 0 <= i < items.len() && (#[trigger] items[i]).var == name && !items[i].optional
}

/// Whether the list of descriptors names the variable `name`.
pub open spec fn lists(items: Seq<ItemInfo>, name: Seq<char>) -> bool {
    exists|i: int| 0 <= i < items.len() && (#[trigger] items[i]).var == name
}

/// What one part of a list of descriptors names, the whole list names.
pub proof fn lemma_lists_parts(head: Seq<ItemInfo>, tail: Seq<ItemInfo>, name: Seq<char>)
    ensures
        lists(head + tail, name) <==> lists(head, name) || lists(tail, name),
{
    let all = head + tail;
    if lists(head, name) {
        let i = choose|i: int| 0 <= i < head.len() && (#[trigger] head[i]).var == name;
        assert(all[i].var == name);
    }
    if lists(tail, name) {
        let i = choose|i: int| 0 <= i < tail.len() && (#[trigger] tail[i]).var == name;
        assert(all[head.len() + i].var == name);
    }
    if lists(all, name) {
        let i = choose|i: int| 0 <= i < all.len() && (#[trigger] all[i]).var == name;
        if i < head.len() {
            assert(head[i].var == name);
        } else {
            assert(tail[i - head.len()].var == name);
        }
    }
}

/// The inventory names every variable that a field cannot do without.
pub proof fn lemma_field_demand_is_listed(field: Field, name: Seq<char>)
    requires
        field_demands(field, name),
    ensures
        lists(field_inventory(field), name),
    decreases field,
{
    match field.source {
        Source::Default => {},
        Source::Var { .. } => {
            assert(field_inventory(field)[0].var == name);
        },
        Source::Nested { input, .. } => {
            lemma_demand_is_listed(input.fields@, name);
        },
    }
}

/// The inventory names every variable that a list of fields cannot do
/// without.
pub proof fn lemma_demand_is_listed(fields: Seq<Field>, name: Seq<char>)
    requires
        fields_demand(fields, name),
    ensures
        lists(fields_inventory(fields), name),
    decreases fields,
{
    lemma_lists_parts(
        fields_inventory(fields.drop_last()),
        field_inventory(fields.last()),
        name,
    );
    if fields_demand(fields.drop_last(), name) {
        lemma_demand_is_listed(fields.drop_last(), name);
    } else {
        lemma_field_demand_is_listed(fields.last(), name);
    }
}

/// Taking away a required input makes the load fail and the check of
/// presence report the input: where a structure cannot do without a
/// variable, and its inventory marks the variable as required, then without
/// the variable the load fails and the missing descriptors name it.
pub proof fn lemma_removing_required_input(input: Input, name: Seq<char>, bindings: Bindings)
    requires
        fields_demand(input.fields@, name),
        lists_required(inventory(input), name),
    ensures
        input_load(input, bindings.remove(name)) is Err,
        lists_required(missing(inventory(input), bindings.remove(name)), name),
{
    let without = bindings.remove(name);
    lemma_load_fails_without(input, name, bindings);
    let items = inventory(input);
    let i = choose|i: int| 0 <= i < items.len() && (#[trigger] items[i]).var == name
        && !items[i].optional;
    lemma_missing_lists(items, i, without);
    let found = missing(items, without);
    let j = choose|j: int| 0 <= j < found.len() && found[j] == items[i];
    assert(found[j].var == name && !found[j].optional);
}

/// The descriptors of a field stand in the descriptors of its list as they
/// are, after those of the fields before it.
pub proof fn lemma_inventory_holds_field(fields: Seq<Field>, i: int)
    requires
        0 <= i < fields.len(),
    ensures
        ({
            let start = fields_inventory(fields.take(i)).len() as int;
            let part = field_inventory(fields[i]);
            start + part.len() <= fields_inventory(fields).len() && fields_inventory(
                fields,
            ).subrange(start, start + part.len()) == part
        }),
    decreases fields.len(),
{
    let head = fields_inventory(fields.drop_last());
    let tail = field_inventory(fields.last());
    let start = fields_inventory(fields.take(i)).len() as int;
    let part = field_inventory(fields[i]);
    if i == fields.len() - 1 {
        assert(fields.take(i) =~= fields.drop_last());
        assert((head + tail).subrange(start, start + part.len()) =~= part);
    } else {
        lemma_inventory_holds_field(fields.drop_last(), i);
        assert(fields.drop_last().take(i) =~= fields.take(i));
        assert(fields.drop_last()[i] == fields[i]);
        assert((head + tail).subrange(start, start + part.len()) =~= head.subrange(
            start,
            start + part.len(),
        ));
    }
}

/// The inventory of a nested structure stands in the inventory of the
/// structure that holds it, unchanged and in one piece.
pub proof fn lemma_nested_inventory_inside(outer: Input, i: int)
    requires
        0 <= i < outer.fields.len(),
        outer.fields[i].source is Nested,
    ensures
        ({
            let inner = inventory(outer.fields[i].source->Nested_input);
            let start = fields_inventory(outer.fields@.take(i)).len() as int;
            start + inner.len() <= inventory(outer).len() && inventory(outer).subrange(
                start,
                start + inner.len(),
            ) == inner
        }),
{
    lemma_inventory_holds_field(outer.fields@, i);
}

/// Whether two fields are declared alike but for what the inventory says
/// about their variables being optional.
pub open spec fn field_alike(a: Field, b: Field) -> bool
    decreases a,
{
    &&& a.field_name is Some == b.field_name is Some
    &&& a.field_name is Some ==> a.field_name->0@ == b.field_name->0@
    &&& match a.source {
        Source::Default => b.source is Default,
        Source::Var { env_var, desc, infallible, ty, wrapped, .. } => {
            &&& b.source is Var
            &&& b.source->env_var@ == env_var@
            &&& b.source->desc@ == desc@
            &&& b.source->infallible == infallible
            &&& b.source->ty == ty
            &&& b.source->Var_wrapped == wrapped
        },
        Source::Nested { input, wrapped } => {
            &&& b.source is Nested
            &&& b.source->Nested_wrapped == wrapped
            &&& fields_alike(input.fields@, b.source->Nested_input.fields@)
        },
    }
}

/// Whether two lists of fields are alike field by field.
pub open spec fn fields_alike(a: Seq<Field>, b: Seq<Field>) -> bool
    decreases a,
{
    a.len() == b.len() && (a.len() > 0 ==> fields_alike(a.drop_last(), b.drop_last())
        && field_alike(a.last(), b.last()))
}

/// Fields that are alike but for the mark of being optional load alike.
pub proof fn lemma_field_alike_loads(a: Field, b: Field, idx: int, bindings: Bindings)
    requires
        field_alike(a, b),
    ensures
        field_load(a, idx, bindings) == field_load(b, idx, bindings),
    decreases a,
{
    match a.source {
        Source::Default => {},
        Source::Var { .. } => {},
        Source::Nested { input, .. } => {
            lemma_fields_alike_load(input.fields@, b.source->Nested_input.fields@, bindings);
        },
    }
}

/// Lists of fields that are alike but for the marks of being optional load
/// alike.
pub proof fn lemma_fields_alike_load(a: Seq<Field>, b: Seq<Field>, bindings: Bindings)
    requires
        fields_alike(a, b),
    ensures
        fields_load(a, bindings) == fields_load(b, bindings),
    decreases a,
{
    if a.len() > 0 {
        lemma_fields_alike_load(a.drop_last(), b.drop_last(), bindings);
        lemma_field_alike_loads(a.last(), b.last(), a.len() - 1, bindings);
    }
}

/// Marking a variable as optional changes what the inventory says and
/// nothing else: two structures whose fields are alike but for these marks
/// load alike from every table.
pub proof fn lemma_optional_mark_is_informational(a: Input, b: Input, bindings: Bindings)
    requires
        fields_alike(a.fields@, b.fields@),
    ensures
        input_load(a, bindings) == input_load(b, bindings),
{
    lemma_fields_alike_load(a.fields@, b.fields@, bindings);
}

/// Whether two lists of descriptors name the same variables, in the same
/// order and with the same descriptions.
pub open spec fn same_names(a: Seq<ItemInfo>, b: Seq<ItemInfo>) -> bool {
    a.len() == b.len() && forall|i: int|
        0 <= i < a.len() ==> (#[trigger] a[i]).var == b[i].var && a[i].description
            == b[i].description
}

/// Fields that are alike but for the mark of being optional have
/// inventories that differ in nothing but that mark.
pub proof fn lemma_field_alike_inventory(a: Field, b: Field)
    requires
        field_alike(a, b),
    ensures
        same_names(field_inventory(a), field_inventory(b)),
    decreases a,
{
    match a.source {
        Source::Default => {},
        Source::Var { .. } => {},
        Source::Nested { input, .. } => {
            lemma_fields_alike_inventory(input.fields@, b.source->Nested_input.fields@);
        },
    }
}

/// Lists of fields that are alike but for the marks of being optional have
/// inventories that differ in nothing but those marks.
pub proof fn lemma_fields_alike_inventory(a: Seq<Field>, b: Seq<Field>)
    requires
        fields_alike(a, b),
    ensures
        same_names(fields_inventory(a), fields_inventory(b)),
    decreases a,
{
    if a.len() > 0 {
        lemma_fields_alike_inventory(a.drop_last(), b.drop_last());
        lemma_field_alike_inventory(a.last(), b.last());
        let head_a = fields_inventory(a.drop_last());
        let head_b = fields_inventory(b.drop_last());
        let tail_a = field_inventory(a.last());
        let tail_b = field_inventory(b.last());
        assert forall|i: int| 0 <= i < (head_a + tail_a).len() implies (#[trigger] (head_a
            + tail_a)[i]).var == (head_b + tail_b)[i].var && (head_a + tail_a)[i].description == (
        head_b + tail_b)[i].description by {
            if i < head_a.len() {
                assert(head_a[i].var == head_b[i].var);
            } else {
                assert(tail_a[i - head_a.len()].var == tail_b[i - head_a.len()].var);
            }
        }
    }
}

/// Every descriptor of a well-declared field has a name and a description.
pub proof fn lemma_field_inventory_is_described(field: Field)
    requires
        field_wf(field),
    ensures
        forall|i: int|
            0 <= i < field_inventory(field).len() ==> (#[trigger] field_inventory(
                field,
            )[i]).is_described(),
    decreases field,
{
    match field.source {
        Source::Default => {
            assert(field_inventory(field).len() == 0);
        },
        Source::Var { env_var, desc, .. } => {
            assert(field_inventory(field).len() == 1);
            assert(field_inventory(field)[0].var == env_var@);
            assert(field_inventory(field)[0].description == desc@);
        },
        Source::Nested { input, .. } => {
            lemma_inventory_is_described(input.fields@);
            assert(field_inventory(field) == fields_inventory(input.fields@));
        },
    }
}

/// Every descriptor in the inventory of well-declared fields has a name
/// and a description.
pub proof fn lemma_inventory_is_described(fields: Seq<Field>)
    requires
        fields_wf(fields),
    ensures
        forall|i: int|
            0 <= i < fields_inventory(fields).len() ==> (#[trigger] fields_inventory(
                fields,
            )[i]).is_described(),
    decreases fields,
{
    if fields.len() > 0 {
        lemma_inventory_is_described(fields.drop_last());
        lemma_field_inventory_is_described(fields.last());
        let head = fields_inventory(fields.drop_last());
        let tail = field_inventory(fields.last());
        assert forall|i: int| 0 <= i < (head + tail).len() implies (#[trigger] (head
            + tail)[i]).is_described() by {
            if i < head.len() {
                assert(head[i].is_described());
            } else {
                assert(tail[i - head.len()].is_described());
            }
        }
    }
}

/// A failure to parse lies under the variant of the field that failed, and
/// that field has a variant: the error type of a well-declared structure
/// has a variant for every failure to parse that its load can give.
pub proof fn lemma_parse_failure_has_variant(fields: Seq<Field>, bindings: Bindings)
    requires
        fields_wf(fields),
        fields_load(fields, bindings) matches Err(failure) && failure is ParseError,
    ensures
        ({
            let e = fields_load(fields, bindings)->Err_0->ParseError_0;
            &&& 0 <= e.field < fields.len()
            &&& has_variant(fields[e.field])
            &&& e.variant == variant_text(fields[e.field], e.field)
        }),
    decreases fields.len(),
{
    let head = fields.drop_last();
    let last = fields.last();
    assert(fields.len() > 0);
    if fields_load(head, bindings) is Err {
        assert(fields_load(fields, bindings) == fields_load(head, bindings));
        lemma_parse_failure_has_variant(head, bindings);
        let e = fields_load(head, bindings)->Err_0->ParseError_0;
        assert(head[e.field] == fields[e.field]);
        assert(has_variant(fields[e.field]));
    } else {
        assert(field_wf(last));
        let failure = field_load(last, fields.len() - 1, bindings)->Err_0;
        assert(fields_load(fields, bindings) == Err::<Seq<ValueView>, Failure<FieldErrorView>>(
            failure,
        ));
        assert(failure is ParseError);
        assert(failure->ParseError_0.field == fields.len() - 1);
        assert(failure->ParseError_0.variant == variant_text(last, fields.len() - 1));
        match last.source {
            Source::Default => {},
            Source::Var { env_var, ty, wrapped, infallible, .. } => {
                let loaded = load_leaf(ty, wrapped, lookup(bindings, env_var@), env_var@);
                assert(loaded matches Err(inner) && inner is ParseError);
                assert(!ty.is_infallible());
            },
            Source::Nested { .. } => {},
        }
        assert(has_variant(last));
        assert(fields[fields.len() - 1] == last);
    }
}

/// A failure that lies with the input comes up through every nesting as it
/// was found: it names a variable of the inventory, and it is what reading
/// that variable gives.
pub proof fn lemma_field_input_failure_is_found(field: Field, idx: int, bindings: Bindings)
    requires
        field_load(field, idx, bindings) matches Err(failure) && failure.is_provenance(),
    ensures
        match field_load(field, idx, bindings)->Err_0 {
            Failure::EnvError(name, cause) => lists(field_inventory(field), name) && lookup(
                bindings,
                name,
            ) == Err::<Seq<char>, crate::utils::from_env::VarError>(cause),
            Failure::Empty(name) => lists(field_inventory(field), name) && lookup(bindings, name)
                == Ok::<Seq<char>, crate::utils::from_env::VarError>(Seq::empty()),
            Failure::ParseError(_) => true,
        },
    decreases field,
{
    match field.source {
        Source::Default => {},
        Source::Var { env_var, .. } => {
            assert(field_inventory(field)[0].var == env_var@);
            let found = lookup(bindings, env_var@);
            if found is Ok {
                assert(found->Ok_0 =~= Seq::<char>::empty());
            }
        },
        Source::Nested { input, .. } => {
            lemma_input_failure_is_found(input.fields@, bindings);
        },
    }
}

/// A failure of a list of fields that lies with the input names a variable
/// of the inventory, and is what reading that variable gives.
pub proof fn lemma_input_failure_is_found(fields: Seq<Field>, bindings: Bindings)
    requires
        fields_load(fields, bindings) matches Err(failure) && failure.is_provenance(),
    ensures
        match fields_load(fields, bindings)->Err_0 {
            Failure::EnvError(name, cause) => lists(fields_inventory(fields), name) && lookup(
                bindings,
                name,
            ) == Err::<Seq<char>, crate::utils::from_env::VarError>(cause),
            Failure::Empty(name) => lists(fields_inventory(fields), name) && lookup(
                bindings,
                name,
            ) == Ok::<Seq<char>, crate::utils::from_env::VarError>(Seq::empty()),
            Failure::ParseError(_) => true,
        },
    decreases fields,
{
    let head = fields_inventory(fields.drop_last());
    let tail = field_inventory(fields.last());
    let name = match fields_load(fields, bindings)->Err_0 {
        Failure::EnvError(name, _) => name,
        Failure::Empty(name) => name,
        Failure::ParseError(_) => Seq::empty(),
    };
    lemma_lists_parts(head, tail, name);
    if fields_load(fields.drop_last(), bindings) is Err {
        lemma_input_failure_is_found(fields.drop_last(), bindings);
    } else {
        lemma_field_input_failure_is_found(fields.last(), fields.len() - 1, bindings);
    }
}

} // verus!
