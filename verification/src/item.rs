//! The items of telemetry that a receiver takes in: spans, log records and metrics.
use vstd::prelude::*;
use vstd::seq_lib::lemma_flatten_concat;

verus! {

/// One span, log record or metric, in the two forms in which it leaves the tap: the protobuf
/// message that is polled, and the JSON text that is printed.
#[derive(Debug)]
pub struct Item {
    /// The item alone, encoded as a protobuf message.
    pub message: Vec<u8>,
    /// The item as compact JSON, or why it has no JSON form. It is made from the item as it was
    /// received, not from its encoding, which does not keep all of it: a plain field that holds
    /// minus zero is left out there.
    pub json: Result<String, String>,
}

/// The value of an [`Item`].
#[verifier::ext_equal]
pub struct ItemView {
    pub message: Seq<u8>,
    pub json: Result<Seq<char>, Seq<char>>,
}

impl View for Item {
    type V = ItemView;

    open spec fn view(&self) -> ItemView {
        ItemView {
            message: self.message@,
            json: match self.json {
                Ok(text) => Ok(text@),
                Err(reason) => Err(reason@),
            },
        }
    }
}

impl DeepView for Item {
    type V = ItemView;

    open spec fn deep_view(&self) -> ItemView {
        self@
    }
}

impl Clone for Item {
    fn clone(&self) -> (copy: Self)
        ensures
            copy@ == self@,
    {
        let message = self.message.clone();
        assert(message@ =~= self.message@);
        Item {
            message,
            json: match &self.json {
                Ok(text) => Ok(text.clone()),
                Err(reason) => Err(reason.clone()),
            },
        }
    }
}

/// The items of one export request as it groups them: by resource, then by instrumentation scope.
pub type ExportRequest = Vec<Vec<Vec<Item>>>;

/// The value of an [`ExportRequest`].
pub type ExportRequestView = Seq<Seq<Seq<ItemView>>>;

/// The items of a request one after another, without the grouping.
pub open spec fn flat(request: ExportRequestView) -> Seq<ItemView> {
    request.flatten().flatten()
}

/// Lists the items of a request in the order in which the request holds them.
pub fn flatten<'a>(request: &'a ExportRequest) -> (items: Vec<&'a Item>)
    ensures
        items.deep_view() == flat(request.deep_view()),
{
    let ghost groups = request.deep_view();
    let mut items: Vec<&'a Item> = Vec::new();
    let mut r: usize = 0;
    assert(groups.take(0).flatten().flatten() =~= Seq::<ItemView>::empty());
    while r < request.len()
        invariant
            r <= request.len(),
            groups == request.deep_view(),
            items.deep_view() == groups.take(r as int).flatten().flatten(),
        decreases request.len() - r,
    {
        let resource = &request[r];
        let ghost before = groups.take(r as int).flatten();
        let mut s: usize = 0;
        assert(before + resource.deep_view().take(0) =~= before);
        while s < resource.len()
            invariant
                s <= resource.len(),
                items.deep_view() == (before + resource.deep_view().take(s as int)).flatten(),
            decreases resource.len() - s,
        {
            let scope = &resource[s];
            let ghost start = before + resource.deep_view().take(s as int);
            let mut i: usize = 0;
            assert(start.flatten() + scope.deep_view().take(0) =~= start.flatten());
            while i < scope.len()
                invariant
                    i <= scope.len(),
                    items.deep_view() == start.flatten() + scope.deep_view().take(i as int),
                decreases scope.len() - i,
            {
                let ghost listed = items.deep_view();
                items.push(&scope[i]);
                proof {
                    assert(items.deep_view() =~= listed.push(scope[i as int]@));
                    assert(scope.deep_view().take(i + 1) =~= scope.deep_view().take(i as int).push(
                        scope[i as int]@,
                    ));
                }
                i += 1;
            }
            proof {
                assert(scope.deep_view().take(i as int) =~= scope.deep_view());
                start.lemma_flatten_push(scope.deep_view());
                assert(start.push(scope.deep_view()) =~= before + resource.deep_view().take(s + 1));
            }
            s += 1;
        }
        proof {
            assert(resource.deep_view().take(s as int) =~= resource.deep_view());
            groups.take(r as int).lemma_flatten_push(resource.deep_view());
            assert(groups.take(r as int).push(resource.deep_view()) =~= groups.take(r + 1));
        }
        r += 1;
    }
    assert(groups.take(r as int) =~= groups);
    items
}

/// The value of an item shows its message and its JSON form as they are.
pub proof fn law_item_values_are_complete(item: Item)
    ensures
        item@.message == item.message@,
        item.json matches Ok(text) ==> item@.json == Ok::<Seq<char>, Seq<char>>(text@),
        item.json matches Err(reason) ==> item@.json == Err::<Seq<char>, Seq<char>>(reason@),
{
}

/// Listing the items of a request takes it apart and leaves nothing out: no resources have no items,
/// resources one after another have the items of the first ones, then those of the others, and so
/// have the scopes of a resource; and a single scope has just its own items.
pub proof fn law_requests_are_listed_piece_by_piece(
    left: ExportRequestView,
    right: ExportRequestView,
    first: Seq<Seq<ItemView>>,
    second: Seq<Seq<ItemView>>,
    scope: Seq<ItemView>,
)
    ensures
        flat(Seq::empty()) == Seq::<ItemView>::empty(),
        flat(left + right) == flat(left) + flat(right),
        flat(seq![Seq::empty()]) == Seq::<ItemView>::empty(),
        flat(seq![first + second]) == flat(seq![first]) + flat(seq![second]),
        flat(seq![seq![scope]]) == scope,
{
    lemma_flatten_concat(left, right);
    lemma_flatten_concat(left.flatten(), right.flatten());
    lemma_flatten_concat(first, second);
    seq![Seq::<Seq<ItemView>>::empty()].lemma_flatten_one_element();
    seq![first + second].lemma_flatten_one_element();
    seq![first].lemma_flatten_one_element();
    seq![second].lemma_flatten_one_element();
    seq![seq![scope]].lemma_flatten_one_element();
    seq![scope].lemma_flatten_one_element();
}

/// How many items the scopes of a resource hold together.
pub open spec fn scopes_hold(scopes: Seq<Seq<ItemView>>) -> nat
    decreases scopes.len(),
{
    if scopes.len() == 0 {
        0
    } else {
        scopes_hold(scopes.drop_last()) + scopes.last().len()
    }
}

/// How many items the resources of a request hold together.
pub open spec fn resources_hold(request: ExportRequestView) -> nat
    decreases request.len(),
{
    if request.len() == 0 {
        0
    } else {
        resources_hold(request.drop_last()) + scopes_hold(request.last())
    }
}

/// The list of the items of a single resource is as long as its scopes together.
proof fn lemma_scopes_add_up(scopes: Seq<Seq<ItemView>>)
    ensures
        flat(seq![scopes]).len() == scopes_hold(scopes),
    decreases scopes.len(),
{
    let none = Seq::<Seq<Seq<ItemView>>>::empty();
    if scopes.len() == 0 {
        law_requests_are_listed_piece_by_piece(none, none, scopes, scopes, Seq::empty());
        assert(scopes =~= Seq::empty());
    } else {
        let first = scopes.drop_last();
        lemma_scopes_add_up(first);
        law_requests_are_listed_piece_by_piece(
            none,
            none,
            first,
            seq![scopes.last()],
            scopes.last(),
        );
        assert(scopes =~= first + seq![scopes.last()]);
    }
}

/// The list of the items of a request is as long as all its scopes together.
pub proof fn law_no_item_is_left_out(request: ExportRequestView)
    ensures
        flat(request).len() == resources_hold(request),
    decreases request.len(),
{
    let none = Seq::<Seq<ItemView>>::empty();
    if request.len() == 0 {
        law_requests_are_listed_piece_by_piece(request, request, none, none, Seq::empty());
        assert(request =~= Seq::empty());
    } else {
        let first = request.drop_last();
        law_no_item_is_left_out(first);
        law_requests_are_listed_piece_by_piece(
            first,
            seq![request.last()],
            none,
            none,
            Seq::empty(),
        );
        lemma_scopes_add_up(request.last());
        assert(request =~= first + seq![request.last()]);
    }
}

/// Each item of a request has its place in the list: behind all items of the resources before its
/// own, of the scopes before its own in the same resource, and before it in the same scope.
pub proof fn law_items_are_listed_in_order(request: ExportRequestView, r: int, s: int, i: int)
    requires
        0 <= r < request.len(),
        0 <= s < request[r].len(),
        0 <= i < request[r][s].len(),
    ensures
        ({
            let place = resources_hold(request.take(r)) + scopes_hold(request[r].take(s)) + i;
            &&& place < flat(request).len()
            &&& flat(request)[place] == request[r][s][i]
        }),
{
    let scopes = request[r];
    let scope = scopes[s];
    let none = Seq::<Seq<Seq<ItemView>>>::empty();
    law_requests_are_listed_piece_by_piece(
        request.take(r),
        request.skip(r),
        scopes.take(s),
        scopes.skip(s),
        scope,
    );
    law_requests_are_listed_piece_by_piece(
        seq![scopes],
        request.skip(r + 1),
        seq![scope],
        scopes.skip(s + 1),
        scope,
    );
    assert(request =~= request.take(r) + request.skip(r));
    assert(request.skip(r) =~= seq![scopes] + request.skip(r + 1));
    assert(scopes =~= scopes.take(s) + scopes.skip(s));
    assert(scopes.skip(s) =~= seq![scope] + scopes.skip(s + 1));
    law_no_item_is_left_out(request.take(r));
    lemma_scopes_add_up(scopes.take(s));
}

} // verus!
