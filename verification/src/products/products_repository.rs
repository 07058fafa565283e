use crate::products::errors::{Error, ErrorView};
use crate::products::price::Price;
use crate::products::product::{product_views, Product, ProductView};
use vstd::prelude::*;

verus! {

/// What a product repository holds: the products in the order in which
/// they were added, and the greatest id that was ever given out.
pub struct Catalog {
    pub products: Seq<ProductView>,
    pub last_id: u128,
}

impl Catalog {
    /// The catalogue of a new repository.
    pub open spec fn empty() -> Catalog {
        Catalog { products: Seq::empty(), last_id: 0 }
    }

    /// Ids start at one, grow with the order of insertion and never exceed
    /// `last_id`; no name occurs twice; no name is empty and every price is
    /// greater than zero.
    pub open spec fn wf(self) -> bool {
        &&& forall|i: int|
            0 <= i < self.products.len() ==> 1 <= (#[trigger] self.products[i]).id <= self.last_id
        &&& forall|i: int|
            0 <= i < self.products.len() ==> Self::valid_fields(
                (#[trigger] self.products[i]).name,
                self.products[i].price,
            )
        &&& forall|i: int, j: int|
            0 <= i < j < self.products.len() ==> (#[trigger] self.products[i]).id
                < (#[trigger] self.products[j]).id
        &&& forall|i: int, j: int|
            0 <= i < j < self.products.len() ==> (#[trigger] self.products[i]).name
                != (#[trigger] self.products[j]).name
    }

    /// An id is left to give to the next product.
    pub open spec fn can_assign(self) -> bool {
        self.last_id < u128::MAX
    }

    /// The rule for the fields of a product: a name that is not empty and
    /// a price greater than zero.
    pub open spec fn valid_fields(name: Seq<char>, price: Price) -> bool {
        name.len() > 0 && price.positive()
    }

    pub open spec fn has_name(self, name: Seq<char>) -> bool {
        exists|i: int| 0 <= i < self.products.len() && (#[trigger] self.products[i]).name == name
    }

    pub open spec fn has_id(self, id: u128) -> bool {
        exists|i: int| 0 <= i < self.products.len() && (#[trigger] self.products[i]).id == id
    }

    /// A product other than the one with this id has this name.
    pub open spec fn name_taken_by_other(self, id: u128, name: Seq<char>) -> bool {
        exists|i: int|
            0 <= i < self.products.len() && (#[trigger] self.products[i]).name == name
                && self.products[i].id != id
    }

    /// The place of the product with this id, where there is one.
    pub open spec fn position(self, id: u128) -> int {
        choose|i: int| 0 <= i < self.products.len() && (#[trigger] self.products[i]).id == id
    }

    /// What `get_product_by_id` answers.
    pub open spec fn find_id(self, id: u128) -> Result<ProductView, ErrorView> {
        if self.has_id(id) {
            Ok(self.products[self.position(id)])
        } else {
            Err(ErrorView::unknown_id(id))
        }
    }

    /// What `add_product` answers.
    pub open spec fn add_outcome(self, name: Seq<char>, price: Price) -> Result<
        ProductView,
        ErrorView,
    > {
        if !Self::valid_fields(name, price) {
            Err(ErrorView::invalid_fields())
        } else if self.has_name(name) {
            Err(ErrorView::name_taken(name))
        } else {
            Ok(ProductView { id: (self.last_id + 1) as u128, name, price })
        }
    }

    /// The catalogue after `add_product`: on success the new product stands
    /// at the end and its id is the greatest given out; on failure nothing
    /// changed.
    pub open spec fn add(self, name: Seq<char>, price: Price) -> Catalog {
        match self.add_outcome(name, price) {
            Ok(product) => Catalog { products: self.products.push(product), last_id: product.id },
            Err(_) => self,
        }
    }

    /// What `update_product` answers.
    pub open spec fn update_outcome(self, id: u128, name: Seq<char>, price: Price) -> Result<
        ProductView,
        ErrorView,
    > {
        if !self.has_id(id) {
            Err(ErrorView::unknown_id(id))
        } else if !Self::valid_fields(name, price) {
            Err(ErrorView::invalid_fields())
        } else if self.name_taken_by_other(id, name) {
            Err(ErrorView::name_taken(name))
        } else {
            Ok(ProductView { id, name, price })
        }
    }

    /// The catalogue after `update_product`: on success the product keeps
    /// its id and its place and has the new name and price; on failure
    /// nothing changed.
    pub open spec fn update(self, id: u128, name: Seq<char>, price: Price) -> Catalog {
        match self.update_outcome(id, name, price) {
            Ok(product) => Catalog {
                products: self.products.update(self.position(id), product),
                last_id: self.last_id,
            },
            Err(_) => self,
        }
    }

    /// What `delete_product` answers.
    pub open spec fn delete_outcome(self, id: u128) -> Result<(), ErrorView> {
        if self.has_id(id) {
            Ok(())
        } else {
            Err(ErrorView::unknown_id(id))
        }
    }

    /// The catalogue after `delete_product`: the product with this id is
    /// gone, the others keep their order, and `last_id` stays.
    pub open spec fn delete(self, id: u128) -> Catalog {
        if self.has_id(id) {
            Catalog { products: self.products.remove(self.position(id)), last_id: self.last_id }
        } else {
            self
        }
    }
}

/// A well-formed catalogue that can still give out an id stays well-formed
/// when a product is added.
pub proof fn lemma_add_keeps_wf(catalog: Catalog, name: Seq<char>, price: Price)
    requires
        catalog.wf(),
        catalog.can_assign(),
    ensures
        catalog.add(name, price).wf(),
{
    let after = catalog.add(name, price);
    if let Ok(product) = catalog.add_outcome(name, price) {
        assert(after.products == catalog.products.push(product));
        assert forall|i: int, j: int| 0 <= i < j < after.products.len() implies (
        #[trigger] after.products[i]).name != (#[trigger] after.products[j]).name by {
            if j == catalog.products.len() {
                assert(catalog.products[i].name != name);
            }
        }
    }
}

/// A well-formed catalogue stays well-formed when a product is updated.
pub proof fn lemma_update_keeps_wf(catalog: Catalog, id: u128, name: Seq<char>, price: Price)
    requires
        catalog.wf(),
    ensures
        catalog.update(id, name, price).wf(),
{
    let after = catalog.update(id, name, price);
    if let Ok(product) = catalog.update_outcome(id, name, price) {
        let at = catalog.position(id);
        assert(after.products == catalog.products.update(at, product));
        assert forall|i: int, j: int| 0 <= i < j < after.products.len() implies (
        #[trigger] after.products[i]).name != (#[trigger] after.products[j]).name by {
            if i == at {
                assert(catalog.products[j].id != id);
                assert(catalog.products[j].name != name);
            } else if j == at {
                assert(catalog.products[i].id != id);
                assert(catalog.products[i].name != name);
            }
        }
    }
}

/// A well-formed catalogue stays well-formed when a product is deleted.
pub proof fn lemma_delete_keeps_wf(catalog: Catalog, id: u128)
    requires
        catalog.wf(),
    ensures
        catalog.delete(id).wf(),
{
    let after = catalog.delete(id);
    if catalog.has_id(id) {
        let at = catalog.position(id);
        assert(after.products == catalog.products.remove(at));
        assert forall|i: int| 0 <= i < after.products.len() implies #[trigger] after.products[i]
            == catalog.products[if i < at {
            i
        } else {
            i + 1
        }] by {}
    }
}

/// The view of what a repository call returned.
pub open spec fn product_result(result: Result<Product, Error>) -> Result<ProductView, ErrorView> {
    match result {
        Ok(product) => Ok(product@),
        Err(e) => Err(e@),
    }
}

/// The view of what `delete_product` returned.
pub open spec fn unit_result(result: Result<(), Error>) -> Result<(), ErrorView> {
    match result {
        Ok(()) => Ok(()),
        Err(e) => Err(e@),
    }
}

/// A store of products, each with an id of its own and a name of its own.
///
/// What a repository holds is well-formed at all times; every method says
/// so of the catalogue that it was called on.
pub trait ProductRepository {
    /// What the repository holds.
    spec fn catalog(&self) -> Catalog;

    /// Adds a product.
    ///
    /// Fails with `InvalidInput` if the name is empty or the price is not
    /// greater than zero, and with `AlreadyExists` if the name is taken.
    /// The new product gets an id greater than any given out before.
    fn add_product(&mut self, name: String, price: Price) -> (result: Result<Product, Error>)
        requires
            old(self).catalog().can_assign(),
        ensures
            old(self).catalog().wf(),
            product_result(result) == old(self).catalog().add_outcome(name@, price),
            final(self).catalog() == old(self).catalog().add(name@, price),
            final(self).catalog().wf(),
    ;

    /// All products, in the order in which they were added.
    fn get_products(&self) -> (result: Result<Vec<Product>, Error>)
        ensures
            self.catalog().wf(),
            result matches Ok(products) && product_views(products@) == self.catalog().products,
    ;

    /// The product with this id, or `NotFound`.
    fn get_product_by_id(&self, id: u128) -> (result: Result<Product, Error>)
        ensures
            self.catalog().wf(),
            product_result(result) == self.catalog().find_id(id),
    ;

    /// Gives the product with this id a new name and a new price.
    ///
    /// Fails with `NotFound` if no product has the id; else with
    /// `InvalidInput` if the name is empty or the price is not greater than
    /// zero; else with `AlreadyExists` if another product has the name.
    fn update_product(&mut self, id: u128, name: String, price: Price) -> (result: Result<
        Product,
        Error,
    >)
        ensures
            old(self).catalog().wf(),
            product_result(result) == old(self).catalog().update_outcome(id, name@, price),
            final(self).catalog() == old(self).catalog().update(id, name@, price),
            final(self).catalog().wf(),
    ;

    /// Removes the product with this id, or fails with `NotFound`.
    fn delete_product(&mut self, id: u128) -> (result: Result<(), Error>)
        ensures
            old(self).catalog().wf(),
            unit_result(result) == old(self).catalog().delete_outcome(id),
            final(self).catalog() == old(self).catalog().delete(id),
            final(self).catalog().wf(),
    ;

    /// Whether the ids are used up, so that `add_product` may not be
    /// called.
    fn is_exhausted(&self) -> (yes: bool)
        ensures
            self.catalog().wf(),
            yes == !self.catalog().can_assign(),
    ;
}

/// A product repository that lives in memory.
pub struct MemoryProductsRepository {
    products: Vec<Product>,
    last_id: u128,
}

impl MemoryProductsRepository {
    #[verifier::type_invariant]
    spec fn well_formed(self) -> bool {
        (Catalog { products: product_views(self.products@), last_id: self.last_id }).wf()
    }

    pub fn new() -> (repo: Self)
        ensures
            repo.catalog() == Catalog::empty(),
            repo.catalog().wf(),
    {
        let repo = MemoryProductsRepository { products: Vec::new(), last_id: 0 };
        assert(repo.catalog().products =~= Seq::empty());
        repo
    }

    /// The place of a product with this name that does not stand at
    /// `except`.
    fn position_of_name(&self, name: &String, except: Option<usize>) -> (found: Option<usize>)
        ensures
            match found {
                Some(at) => at < self.products.len() && self.products[at as int].name@ == name@
                    && except != Some(at),
                None => forall|i: int|
                    0 <= i < self.products.len() && except != Some(i as usize) ==> (
                    #[trigger] self.catalog().products[i]).name != name@,
            },
    {
        let mut at: usize = 0;
        while at < self.products.len()
            invariant
                at <= self.products.len(),
                forall|i: int|
                    0 <= i < at && except != Some(i as usize) ==> self.products[i].name@ != name@,
            decreases self.products.len() - at,
        {
            let skip = match except {
                Some(place) => place == at,
                None => false,
            };
            if !skip && self.products[at].name == *name {
                return Some(at);
            }
            at += 1;
        }
        assert forall|i: int|
            0 <= i < self.products.len() && except != Some(i as usize) implies (
        #[trigger] self.catalog().products[i]).name != name@ by {
            assert(self.catalog().products[i] == self.products[i]@);
        }
        None
    }

    /// The place of the product with this id.
    fn position_of_id(&self, id: u128) -> (found: Option<usize>)
        ensures
            match found {
                Some(at) => at < self.products.len() && self.products[at as int].id == id
                    && self.catalog().has_id(id) && at == self.catalog().position(id),
                None => !self.catalog().has_id(id),
            },
    {
        proof {
            use_type_invariant(self);
        }
        let mut at: usize = 0;
        while at < self.products.len()
            invariant
                at <= self.products.len(),
                self.catalog().wf(),
                forall|i: int| 0 <= i < at ==> self.products[i].id != id,
            decreases self.products.len() - at,
        {
            if self.products[at].id == id {
                proof {
                    let catalog = self.catalog();
                    assert(catalog.products[at as int] == self.products[at as int]@);
                    let place = catalog.position(id);
                    assert(catalog.products[place].id == id);
                    if place < at {
                        assert(catalog.products[place].id < catalog.products[at as int].id);
                    } else if place > at {
                        assert(catalog.products[at as int].id < catalog.products[place].id);
                    }
                }
                return Some(at);
            }
            at += 1;
        }
        assert forall|i: int| 0 <= i < self.catalog().products.len() implies (
        #[trigger] self.catalog().products[i]).id != id by {
            assert(self.catalog().products[i] == self.products[i]@);
        }
        None
    }
}

impl ProductRepository for MemoryProductsRepository {
    closed spec fn catalog(&self) -> Catalog {
        Catalog { products: product_views(self.products@), last_id: self.last_id }
    }

    fn add_product(&mut self, name: String, price: Price) -> (result: Result<Product, Error>) {
        proof {
            use_type_invariant(&*self);
            lemma_add_keeps_wf(self.catalog(), name@, price);
        }
        if name.as_str().is_empty() || !price.is_positive() {
            return Err(Error::invalid_fields());
        }
        if let Some(taken) = self.position_of_name(&name, None) {
            assert(self.catalog().products[taken as int] == self.products[taken as int]@);
            return Err(Error::name_taken(name.as_str()));
        }
        let id: u128 = self.last_id + 1;
        let product = Product::new(id, name, price);
        let copy = product.clone();
        let mut products: Vec<Product> = Vec::new();
        std::mem::swap(&mut products, &mut self.products);
        products.push(product);
        assert(product_views(products@) =~= old(self).catalog().products.push(copy@));
        self.last_id = id;
        self.products = products;
        Ok(copy)
    }

    fn get_products(&self) -> (result: Result<Vec<Product>, Error>) {
        proof {
            use_type_invariant(self);
        }
        let mut products: Vec<Product> = Vec::new();
        let mut at: usize = 0;
        while at < self.products.len()
            invariant
                at <= self.products.len(),
                products.len() == at,
                forall|i: int| 0 <= i < at ==> products[i] == self.products[i],
            decreases self.products.len() - at,
        {
            products.push(self.products[at].clone());
            at += 1;
        }
        assert(product_views(products@) =~= self.catalog().products);
        Ok(products)
    }

    fn get_product_by_id(&self, id: u128) -> (result: Result<Product, Error>) {
        proof {
            use_type_invariant(self);
        }
        match self.position_of_id(id) {
            Some(at) => {
                assert(self.catalog().products[at as int] == self.products[at as int]@);
                Ok(self.products[at].clone())
            },
            None => Err(Error::unknown_id(id)),
        }
    }

    fn update_product(&mut self, id: u128, name: String, price: Price) -> (result: Result<
        Product,
        Error,
    >) {
        proof {
            use_type_invariant(&*self);
            lemma_update_keeps_wf(self.catalog(), id, name@, price);
        }
        let at = match self.position_of_id(id) {
            Some(at) => at,
            None => {
                return Err(Error::unknown_id(id));
            },
        };
        if name.as_str().is_empty() || !price.is_positive() {
            return Err(Error::invalid_fields());
        }
        if let Some(taken) = self.position_of_name(&name, Some(at)) {
            assert(self.catalog().products[taken as int] == self.products[taken as int]@);
            assert(self.catalog().products[at as int] == self.products[at as int]@);
            return Err(Error::name_taken(name.as_str()));
        }
        assert(!self.catalog().name_taken_by_other(id, name@)) by {
            assert forall|i: int|
                0 <= i < self.catalog().products.len() && (
                #[trigger] self.catalog().products[i]).name == name@ implies self.catalog().products[i].id
                == id by {
                assert(i == at);
                assert(self.catalog().products[at as int] == self.products[at as int]@);
            }
        }
        let product = Product::new(id, name, price);
        let copy = product.clone();
        let mut products: Vec<Product> = Vec::new();
        std::mem::swap(&mut products, &mut self.products);
        products.set(at, product);
        assert(product_views(products@) =~= old(self).catalog().products.update(
            at as int,
            copy@,
        ));
        self.products = products;
        Ok(copy)
    }

    fn delete_product(&mut self, id: u128) -> (result: Result<(), Error>) {
        proof {
            use_type_invariant(&*self);
            lemma_delete_keeps_wf(self.catalog(), id);
        }
        match self.position_of_id(id) {
            Some(at) => {
                let mut products: Vec<Product> = Vec::new();
                std::mem::swap(&mut products, &mut self.products);
                products.remove(at);
                assert(product_views(products@) =~= old(self).catalog().products.remove(
                    at as int,
                ));
                self.products = products;
                Ok(())
            },
            None => Err(Error::unknown_id(id)),
        }
    }

    fn is_exhausted(&self) -> (yes: bool) {
        proof {
            use_type_invariant(self);
        }
        self.last_id == u128::MAX
    }
}

} // verus!
