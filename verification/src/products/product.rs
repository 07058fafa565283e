use crate::products::price::Price;
use vstd::prelude::*;

verus! {

/// A product of the catalogue.
#[derive(Debug)]
pub struct Product {
    pub id: u128,
    pub name: String,
    pub price: Price,
}

/// The mathematical content of a [`Product`].
pub struct ProductView {
    pub id: u128,
    pub name: Seq<char>,
    pub price: Price,
}

impl View for Product {
    type V = ProductView;

    open spec fn view(&self) -> ProductView {
        ProductView { id: self.id, name: self.name@, price: self.price }
    }
}

impl Product {
    pub fn new(id: u128, name: String, price: Price) -> (product: Product)
        ensures
            product@ == (ProductView { id, name: name@, price }),
    {
        Product { id, name, price }
    }
}

impl Clone for Product {
    fn clone(&self) -> (copy: Product)
        ensures
            copy == *self,
    {
        Product { id: self.id, name: self.name.clone(), price: self.price }
    }
}

/// The views of a sequence of products, in the same order.
pub open spec fn product_views(products: Seq<Product>) -> Seq<ProductView> {
    products.map_values(|p: Product| p@)
}

} // verus!
