use crate::products::errors::{Error, ErrorView};
use crate::products::price::Price;
use crate::products::product::{product_views, Product, ProductView};
use crate::products::products_repository::{Catalog, ProductRepository};
use crate::web::reply::{Reply, Status};
use vstd::prelude::*;

verus! {

/// The body of a request to create or update a product.
pub struct ProductRequest {
    pub name: String,
    pub price: Price,
}

/// The status that stands for an error of the product repository.
pub open spec fn error_status(e: ErrorView) -> Status {
    match e {
        ErrorView::NotFound(_) => Status::NotFound,
        ErrorView::AlreadyExists(_) => Status::Conflict,
        ErrorView::InvalidInput(_) => Status::BadRequest,
    }
}

/// What a route answers for the outcome of a repository call: on success
/// the status `done` with the product as the body, on failure the status of
/// the error and no body.
pub open spec fn product_reply(outcome: Result<ProductView, ErrorView>, done: Status) -> (
    Status,
    Option<ProductView>,
) {
    match outcome {
        Ok(product) => (done, Some(product)),
        Err(e) => (error_status(e), None),
    }
}

/// The status and the view of the body of a reply.
pub open spec fn reply_view(reply: Reply<Product>) -> (Status, Option<ProductView>) {
    (
        reply.status,
        match reply.body {
            Some(product) => Some(product@),
            None => None,
        },
    )
}

/// The status that stands for an error of the product repository.
pub fn status_of(e: &Error) -> (status: Status)
    ensures
        status == error_status(e@),
{
    match e {
        Error::NotFound(_) => Status::NotFound,
        Error::AlreadyExists(_) => Status::Conflict,
        Error::InvalidInput(_) => Status::BadRequest,
    }
}

fn reply_for(result: Result<Product, Error>, done: Status) -> (reply: Reply<Product>)
    ensures
        reply_view(reply) == product_reply(
            match result {
                Ok(product) => Ok(product@),
                Err(e) => Err(e@),
            },
            done,
        ),
{
    match result {
        Ok(product) => Reply { status: done, body: Some(product) },
        Err(e) => Reply { status: status_of(&e), body: None },
    }
}

/// The routes of the product catalogue, without the transport: each takes
/// what was read from a request and says what is to be answered.
pub struct ProductRoutes<R: ProductRepository> {
    products_repo: R,
}

impl<R: ProductRepository> ProductRoutes<R> {
    /// What the repository behind the routes holds.
    pub closed spec fn catalog(&self) -> Catalog {
        self.products_repo.catalog()
    }

    pub fn new(repository: R) -> (routes: Self)
        ensures
            routes.catalog() == repository.catalog(),
    {
        ProductRoutes { products_repo: repository }
    }

    /// All products, with status 200.
    pub fn list(&self) -> (reply: Reply<Vec<Product>>)
        ensures
            self.catalog().wf(),
            reply.status == Status::Success,
            reply.body matches Some(products) && product_views(products@)
                == self.catalog().products,
    {
        let products = self.products_repo.get_products().unwrap();
        Reply { status: Status::Success, body: Some(products) }
    }

    /// The product with this id, with status 200.
    pub fn get(&self, id: u128) -> (reply: Reply<Product>)
        ensures
            self.catalog().wf(),
            reply_view(reply) == product_reply(self.catalog().find_id(id), Status::Success),
    {
        reply_for(self.products_repo.get_product_by_id(id), Status::Success)
    }

    /// Adds a product and answers with it and status 201.
    ///
    /// Where no id is left to give out, nothing is added and the answer is
    /// status 500.
    pub fn create(&mut self, item: ProductRequest) -> (reply: Reply<Product>)
        ensures
            old(self).catalog().wf(),
            final(self).catalog().wf(),
            reply_view(reply) == if old(self).catalog().can_assign() {
                product_reply(
                    old(self).catalog().add_outcome(item.name@, item.price),
                    Status::Created,
                )
            } else {
                (Status::ServerError, None::<ProductView>)
            },
            final(self).catalog() == if old(self).catalog().can_assign() {
                old(self).catalog().add(item.name@, item.price)
            } else {
                old(self).catalog()
            },
    {
        if self.products_repo.is_exhausted() {
            Reply { status: Status::ServerError, body: None }
        } else {
            reply_for(self.products_repo.add_product(item.name, item.price), Status::Created)
        }
    }

    /// Updates a product and answers with it and status 200.
    pub fn update(&mut self, id: u128, item: ProductRequest) -> (reply: Reply<Product>)
        ensures
            old(self).catalog().wf(),
            reply_view(reply) == product_reply(
                old(self).catalog().update_outcome(id, item.name@, item.price),
                Status::Success,
            ),
            final(self).catalog() == old(self).catalog().update(id, item.name@, item.price),
            final(self).catalog().wf(),
    {
        reply_for(self.products_repo.update_product(id, item.name, item.price), Status::Success)
    }

    /// Deletes a product and answers with status 204 and no body.
    pub fn delete(&mut self, id: u128) -> (reply: Reply<Product>)
        ensures
            old(self).catalog().wf(),
            reply.body.is_none(),
            reply.status == match old(self).catalog().delete_outcome(id) {
                Ok(()) => Status::NoContent,
                Err(e) => error_status(e),
            },
            final(self).catalog() == old(self).catalog().delete(id),
            final(self).catalog().wf(),
    {
        match self.products_repo.delete_product(id) {
            Ok(()) => Reply { status: Status::NoContent, body: None },
            Err(e) => Reply { status: status_of(&e), body: None },
        }
    }
}

} // verus!
