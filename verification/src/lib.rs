//! Response construction and listener lifecycle for a gateway that serves
//! the objects of a storage bucket over HTTP.
//!
//! A request names an object by its path ([`request`]). Fetching the object
//! comes to one of three outcomes ([`outcome`]), and each outcome has its
//! response ([`response`]): the object itself with a content type guessed
//! from its key ([`media_type`]), a redirect or a plain `404` for a missing
//! key, a plain `500` for any other failure ([`status`], [`header`]). The
//! gateway runs several listeners side by side ([`listener`], [`runtime`]);
//! what one of them goes through leaves the others as they are ([`laws`]).

pub mod header;
pub mod laws;
pub mod listener;
pub mod media_type;
pub mod outcome;
pub mod request;
pub mod response;
pub mod runtime;
pub mod status;
