//! Application-level and route-level shared data, and their extractors.
use vstd::prelude::*;
use std::sync::Arc;
use crate::http::{HttpError, HttpRequest, Poll};
use crate::words::{app_data_missing, app_data_missing_bytes, route_data_missing, route_data_missing_bytes};

verus! {

/// Relies on `Arc::clone`: the clone shares the same value.
#[verifier::external_body]
pub(crate) fn share<T>(a: &Arc<T>) -> (r: Arc<T>)
    ensures
        r == *a,
{
    Arc::clone(a)
}

/// Data shared by every route of an application.
pub struct Data<T>(Arc<T>);

impl<T> View for Data<T> {
    type V = T;

    closed spec fn view(&self) -> T {
        *self.0
    }
}

impl<T> Data<T> {
    /// Wraps `state` for sharing.
    pub fn new(state: T) -> (r: Data<T>)
        ensures
            r@ == state,
    {
        Data(Arc::new(state))
    }

    /// The shared value.
    pub fn get_ref(&self) -> (r: &T)
        ensures
            *r == self@,
    {
        &*self.0
    }

    /// Another handle on the same value.
    pub fn share(&self) -> (r: Data<T>)
        ensures
            r@ == self@,
    {
        Data(share(&self.0))
    }

    /// Extractor: the application's data of type `T`, found in `app_data`;
    /// `500` when the application holds none.
    pub fn extract(req: &HttpRequest, app_data: Option<&Data<T>>) -> (r: Result<
        Data<T>,
        HttpError,
    >)
        ensures
            match app_data {
                Some(d) => r matches Ok(x) && x@ == d@,
                None => r matches Err(HttpError::Status { status, message }) && status == 500
                    && message@ == app_data_missing(),
            },
    {
        match app_data {
            Some(d) => Ok(d.share()),
            None => Err(HttpError::internal(app_data_missing_bytes())),
        }
    }

    /// Puts a handle on this data into the application's slot.
    pub fn install(&self, slot: &mut Option<Data<T>>)
        ensures
            *final(slot) matches Some(d) && d@ == self@,
    {
        *slot = Some(self.share());
    }
}

/// Stores the value an asynchronous data constructor produced: `Ready(Ok)`
/// once stored, `Pending` while it runs, `Ready(Err)` when it failed.
pub fn construct_data<T, E>(outcome: Poll<Result<T, E>>, slot: &mut Option<Data<T>>) -> (r: Poll<
    Result<(), ()>,
>)
    ensures
        match outcome {
            Poll::Pending => r is Pending && *final(slot) == *old(slot),
            Poll::Ready(Err(_)) => r matches Poll::Ready(Err(_)) && *final(slot) == *old(slot),
            Poll::Ready(Ok(s)) => r matches Poll::Ready(Ok(_)) && *final(slot) matches Some(d)
                && d@ == s,
        },
{
    match outcome {
        Poll::Pending => Poll::Pending,
        Poll::Ready(Err(_)) => Poll::Ready(Err(())),
        Poll::Ready(Ok(s)) => {
            *slot = Some(Data::new(s));
            Poll::Ready(Ok(()))
        },
    }
}

/// Data attached to one route.
pub struct RouteData<T>(Arc<T>);

impl<T> View for RouteData<T> {
    type V = T;

    closed spec fn view(&self) -> T {
        *self.0
    }
}

impl<T> RouteData<T> {
    /// Wraps `state` for the route.
    pub fn new(state: T) -> (r: RouteData<T>)
        ensures
            r@ == state,
    {
        RouteData(Arc::new(state))
    }

    /// The route's value.
    pub fn get_ref(&self) -> (r: &T)
        ensures
            *r == self@,
    {
        &*self.0
    }

    /// Another handle on the same value.
    pub fn share(&self) -> (r: RouteData<T>)
        ensures
            r@ == self@,
    {
        RouteData(share(&self.0))
    }

    /// Extractor: the route's data of type `T`; `500` when the route holds none.
    pub fn extract(req: &HttpRequest, route_data: Option<&RouteData<T>>) -> (r: Result<
        RouteData<T>,
        HttpError,
    >)
        ensures
            match route_data {
                Some(d) => r matches Ok(x) && x@ == d@,
                None => r matches Err(HttpError::Status { status, message }) && status == 500
                    && message@ == route_data_missing(),
            },
    {
        match route_data {
            Some(d) => Ok(d.share()),
            None => Err(HttpError::internal(route_data_missing_bytes())),
        }
    }
}

} // verus!
