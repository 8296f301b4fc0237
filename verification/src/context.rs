//! The process-wide context: the store's pool, the room registry and the
//! root of the cancellation tokens.

use crate::error::AppError;
use crate::error::AppResult;
use crate::rooms::Rooms;
use tokio_util::sync::CancellationToken;
use vstd::prelude::*;

verus! {

/// `tokio_util::sync::CancellationToken`, held as an opaque value.
#[verifier::external_type_specification]
#[verifier::external_body]
pub struct ExCancellationToken(CancellationToken);

/// `CancellationToken::new`: a token that is not cancelled and has no
/// parent.
#[verifier::external_body]
fn root_token() -> CancellationToken {
    CancellationToken::new()
}

/// The token from which `child` was derived as a child. This names the
/// derivation, not a link that the child keeps: the child of a token that
/// is cancelled already is made cancelled and on its own.
pub uninterp spec fn parent_of(child: CancellationToken) -> CancellationToken;

/// `CancellationToken::clone`: a handle to the same token.
#[verifier::external_body]
fn same_token(token: &CancellationToken) -> (handle: CancellationToken)
    ensures
        handle == *token,
{
    token.clone()
}

/// `CancellationToken::child_token`: a token derived from `token` as its
/// child, which is cancelled when `token` is and whose own cancellation
/// leaves `token` as it is.
#[verifier::external_body]
fn child_of(token: &CancellationToken) -> (child: CancellationToken)
    ensures
        parent_of(child) == *token,
{
    token.child_token()
}

/// What every part of the server shares: the handle `P` to the store's
/// connection pool, the room registry, and the root cancellation token.
pub struct AppData<P> {
    pub pool: P,
    pub rooms: Rooms,
    pub cancel_token: CancellationToken,
}

/// Collects the parts of an [`AppData`].
pub struct AppDataBuilder<P> {
    pub pool: Option<P>,
    pub rooms: Option<Rooms>,
}

impl<P> AppData<P> {
    pub fn builder() -> (builder: AppDataBuilder<P>)
        ensures
            builder.pool is None,
            builder.rooms is None,
    {
        AppDataBuilder { pool: None, rooms: None }
    }

    /// A handle to the root token.
    pub fn token(&self) -> (handle: CancellationToken)
        ensures
            handle == self.cancel_token,
    {
        same_token(&self.cancel_token)
    }

    /// A token for one background task: derived from the root as its
    /// child, and cancelled when the root is.
    pub fn child_token(&self) -> (child: CancellationToken)
        ensures
            parent_of(child) == self.cancel_token,
    {
        child_of(&self.cancel_token)
    }
}

impl<P> AppDataBuilder<P> {
    /// The context with the pool and the rooms that were set and a new root
    /// token. A part that was not set is an internal error that names it,
    /// the pool first.
    pub fn build(self) -> (built: AppResult<AppData<P>>)
        ensures
            match (self.pool, self.rooms) {
                (Some(pool), Some(rooms)) => built matches Ok(data) && data.pool == pool
                    && data.rooms == rooms,
                (None, _) => built matches Err(AppError::InternalServer(text)) && text@
                    == "PgPool not set"@,
                (Some(_), None) => built matches Err(AppError::InternalServer(text)) && text@
                    == "Rooms not set"@,
            },
    {
        let pool = match self.pool {
            Some(pool) => pool,
            None => {
                return Err(AppError::internal("PgPool not set"));
            },
        };
        let rooms = match self.rooms {
            Some(rooms) => rooms,
            None => {
                return Err(AppError::internal("Rooms not set"));
            },
        };
        Ok(AppData { pool, rooms, cancel_token: root_token() })
    }

    pub fn with_pool(self, pool: P) -> (builder: Self)
        ensures
            builder.pool == Some(pool),
            builder.rooms == self.rooms,
    {
        AppDataBuilder { pool: Some(pool), rooms: self.rooms }
    }

    pub fn with_rooms(self, rooms: Rooms) -> (builder: Self)
        ensures
            builder.rooms == Some(rooms),
            builder.pool == self.pool,
    {
        AppDataBuilder { pool: self.pool, rooms: Some(rooms) }
    }
}

} // verus!
