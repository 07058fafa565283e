use crate::products::errors::ErrorView;
use crate::products::price::Price;
use crate::products::product::ProductView;
use crate::products::products_repository::{lemma_add_keeps_wf, lemma_delete_keeps_wf, Catalog};
use vstd::prelude::*;

verus! {

impl Catalog {
    /// The catalogue after one `add_product` for each entry, a name and a
    /// price, in the order of the entries.
    pub open spec fn add_all(self, entries: Seq<(Seq<char>, Price)>) -> Catalog
        decreases entries.len(),
    {
        if entries.len() == 0 {
            self
        } else {
            self.add_all(entries.drop_last()).add(entries.last().0, entries.last().1)
        }
    }

    /// The product that entry `k` becomes when the entries are added to
    /// this catalogue and every call succeeds.
    pub open spec fn created(self, entries: Seq<(Seq<char>, Price)>, k: int) -> ProductView {
        ProductView { id: (self.last_id + 1 + k) as u128, name: entries[k].0, price: entries[k].1 }
    }
}

/// Adding products with valid fields under names that differ from one
/// another and from those in the catalogue succeeds call by call, as long
/// as ids are left. Afterwards the catalogue lists what it listed before
/// and then the new products in the order of the calls, with ids that
/// count up from the last one given out.
pub proof fn lemma_adds_with_new_names(catalog: Catalog, entries: Seq<(Seq<char>, Price)>)
    requires
        catalog.wf(),
        catalog.last_id + entries.len() <= u128::MAX,
        forall|k: int|
            0 <= k < entries.len() ==> Catalog::valid_fields(
                (#[trigger] entries[k]).0,
                entries[k].1,
            ),
        forall|k: int| 0 <= k < entries.len() ==> !catalog.has_name((#[trigger] entries[k]).0),
        forall|k: int, l: int|
            0 <= k < l < entries.len() ==> (#[trigger] entries[k]).0 != (#[trigger] entries[l]).0,
    ensures
        forall|k: int|
            0 <= k < entries.len() ==> (#[trigger] catalog.add_all(entries.take(k))).add_outcome(
                entries[k].0,
                entries[k].1,
            ) == Ok::<ProductView, ErrorView>(catalog.created(entries, k)),
        catalog.add_all(entries).products == catalog.products + Seq::new(
            entries.len(),
            |k: int| catalog.created(entries, k),
        ),
        catalog.add_all(entries).last_id == catalog.last_id + entries.len(),
        catalog.add_all(entries).wf(),
    decreases entries.len(),
{
    let news = Seq::new(entries.len(), |k: int| catalog.created(entries, k));
    if entries.len() == 0 {
        assert(catalog.products + news =~= catalog.products);
    } else {
        let fewer = entries.drop_last();
        let last = entries.last();
        let n = fewer.len() as int;
        lemma_adds_with_new_names(catalog, fewer);
        let before = catalog.add_all(fewer);
        let fewer_news = Seq::new(fewer.len(), |k: int| catalog.created(fewer, k));
        assert(before.products == catalog.products + fewer_news);
        assert(!before.has_name(last.0)) by {
            assert forall|i: int| 0 <= i < before.products.len() implies (
            #[trigger] before.products[i]).name != last.0 by {
                if i < catalog.products.len() {
                    assert(before.products[i] == catalog.products[i]);
                    assert(entries[n] == last);
                } else {
                    let k = i - catalog.products.len();
                    assert(before.products[i] == fewer_news[k]);
                    assert(fewer[k] == entries[k]);
                    assert(entries[n] == last);
                }
            }
        }
        assert(entries[n] == last);
        assert(before.add_outcome(last.0, last.1) == Ok::<ProductView, ErrorView>(
            catalog.created(entries, n),
        ));
        lemma_add_keeps_wf(before, last.0, last.1);
        assert(catalog.add_all(entries).products =~= catalog.products + news) by {
            assert forall|k: int| 0 <= k < n implies fewer_news[k] == news[k] by {
                assert(fewer[k] == entries[k]);
            }
        }
        assert forall|k: int| 0 <= k < entries.len() implies (#[trigger] catalog.add_all(
            entries.take(k),
        )).add_outcome(entries[k].0, entries[k].1) == Ok::<ProductView, ErrorView>(
            catalog.created(entries, k),
        ) by {
            if k < n {
                assert(entries.take(k) =~= fewer.take(k));
                assert(fewer[k] == entries[k]);
                assert(catalog.add_all(fewer.take(k)).add_outcome(fewer[k].0, fewer[k].1)
                    == Ok::<ProductView, ErrorView>(catalog.created(fewer, k)));
            } else {
                assert(entries.take(k) =~= fewer);
            }
        }
    }
}

/// A product with valid fields whose name is taken is refused as
/// `AlreadyExists`, whatever its price, and the catalogue stays as it is.
pub proof fn lemma_taken_name_is_refused(catalog: Catalog, name: Seq<char>, price: Price)
    requires
        catalog.has_name(name),
        Catalog::valid_fields(name, price),
    ensures
        catalog.add_outcome(name, price) == Err::<ProductView, ErrorView>(
            ErrorView::name_taken(name),
        ),
        catalog.add(name, price) == catalog,
{
}

/// A product whose name is empty or whose price is not greater than zero
/// is refused as `InvalidInput`, whatever the catalogue holds.
pub proof fn lemma_invalid_fields_are_refused(catalog: Catalog, name: Seq<char>, price: Price)
    requires
        name.len() == 0 || !price.positive(),
    ensures
        catalog.add_outcome(name, price) == Err::<ProductView, ErrorView>(
            ErrorView::invalid_fields(),
        ),
        catalog.add(name, price) == catalog,
{
}

/// The id of a new product is greater than every id that the catalogue
/// holds or ever gave out.
pub proof fn lemma_new_id_is_greater(catalog: Catalog, name: Seq<char>, price: Price)
    requires
        catalog.wf(),
        catalog.can_assign(),
        catalog.add_outcome(name, price) is Ok,
    ensures
        catalog.add_outcome(name, price)->Ok_0.id == catalog.last_id + 1,
        forall|i: int|
            0 <= i < catalog.products.len() ==> (#[trigger] catalog.products[i]).id
                < catalog.add_outcome(name, price)->Ok_0.id,
{
}

/// Neither an update nor a deletion lowers the greatest id given out, and
/// an addition raises it by one or leaves it.
pub proof fn lemma_last_id_never_falls(catalog: Catalog, id: u128, name: Seq<char>, price: Price)
    requires
        catalog.wf(),
        catalog.can_assign(),
    ensures
        catalog.update(id, name, price).last_id == catalog.last_id,
        catalog.delete(id).last_id == catalog.last_id,
        catalog.add(name, price).last_id == catalog.last_id || catalog.add(name, price).last_id
            == catalog.last_id + 1,
{
}

/// Once a product is deleted its id is gone for good: the catalogue no
/// longer holds it, and the product that is added next gets another id.
pub proof fn lemma_deleted_id_is_not_reused(
    catalog: Catalog,
    id: u128,
    name: Seq<char>,
    price: Price,
)
    requires
        catalog.wf(),
        catalog.can_assign(),
        catalog.has_id(id),
    ensures
        !catalog.delete(id).has_id(id),
        catalog.delete(id).add_outcome(name, price) matches Ok(product) ==> product.id != id,
        !catalog.delete(id).add(name, price).has_id(id),
{
    let at = catalog.position(id);
    let deleted = catalog.delete(id);
    lemma_delete_keeps_wf(catalog, id);
    assert(deleted.products == catalog.products.remove(at));
    assert forall|i: int| 0 <= i < deleted.products.len() implies (
    #[trigger] deleted.products[i]).id != id by {
        if i < at {
            assert(deleted.products[i] == catalog.products[i]);
            assert(catalog.products[i].id < catalog.products[at].id);
        } else {
            assert(deleted.products[i] == catalog.products[i + 1]);
            assert(catalog.products[at].id < catalog.products[i + 1].id);
        }
    }
    let after = deleted.add(name, price);
    if let Ok(product) = deleted.add_outcome(name, price) {
        assert(after.products == deleted.products.push(product));
        assert(catalog.products[at].id <= catalog.last_id);
        assert forall|i: int| 0 <= i < after.products.len() implies (
        #[trigger] after.products[i]).id != id by {
            if i < deleted.products.len() {
                assert(after.products[i] == deleted.products[i]);
            }
        }
    }
}

/// A product that was just added is what a lookup by its id gives.
pub proof fn lemma_added_product_is_found(catalog: Catalog, name: Seq<char>, price: Price)
    requires
        catalog.wf(),
        catalog.can_assign(),
        catalog.add_outcome(name, price) is Ok,
    ensures
        catalog.add(name, price).find_id(catalog.add_outcome(name, price)->Ok_0.id)
            == catalog.add_outcome(name, price),
{
    let product = catalog.add_outcome(name, price)->Ok_0;
    let after = catalog.add(name, price);
    lemma_add_keeps_wf(catalog, name, price);
    let n = catalog.products.len() as int;
    assert(after.products == catalog.products.push(product));
    assert(after.products[n].id == product.id);
    let at = after.position(product.id);
    if at < n {
        assert(after.products[at].id < after.products[n].id);
    }
}

} // verus!
