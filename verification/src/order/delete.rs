//! Delete an order: validate the table number and remove the row scoped to
//! table and identifier. Deletion is idempotent; a missing row is "not
//! found", never an error.

use vstd::prelude::*;

use crate::db::OperationError;
use crate::db::order::{Repository as OrderRepository, row_matches};
use crate::order::{
    BadRequestBody, ErrorResponseBody, InternalServerErrorBody, server_error_message,
    valid_table_number,
};

verus! {

/// The path parameters of a delete call.
pub struct PathParams {
    pub table_number: u32,
    pub order_id: u32,
}

/// How a delete call fails: an input violation carrying the client body, or
/// a storage failure whose cause is never exposed.
#[derive(Debug)]
pub enum DetailFailure {
    InvalidInput(BadRequestBody),
    InternalServerError(OperationError),
}

impl DetailFailure {
    /// The HTTP status of the failure: 400 for an input violation, 500 for
    /// a storage failure.
    pub fn status_code(&self) -> (r: u16)
        ensures
            r == match self {
                DetailFailure::InvalidInput(_) => 400u16,
                DetailFailure::InternalServerError(_) => 500u16,
            },
    {
        match self {
            DetailFailure::InvalidInput(_) => 400,
            DetailFailure::InternalServerError(_) => 500,
        }
    }

    /// The response body of the failure: the violation's own message for an
    /// input violation, the fixed generic body for a storage failure.
    pub fn error_body(&self) -> (r: ErrorResponseBody)
        ensures
            match self {
                DetailFailure::InvalidInput(b) => r matches ErrorResponseBody::Client(c)
                    && c.error == b.error && c.message@ == b.message@,
                DetailFailure::InternalServerError(_) => r matches ErrorResponseBody::Server(s)
                    && s.error == true && s.message@
                    == "An unknown server error has occurred, please try again later."@,
            },
    {
        match self {
            DetailFailure::InvalidInput(b) => ErrorResponseBody::Client(
                BadRequestBody { error: b.error, message: b.message.clone() },
            ),
            DetailFailure::InternalServerError(_) => ErrorResponseBody::Server(
                InternalServerErrorBody { error: true, message: server_error_message() },
            ),
        }
    }
}

/// The input of a delete call.
pub struct Input {
    pub table_number: u32,
    pub order_id: u32,
}

impl Input {
    pub fn new(table_number: u32, order_id: u32) -> (r: Self)
        ensures
            r.table_number == table_number,
            r.order_id == order_id,
    {
        Input { table_number, order_id }
    }

    /// Range-check the table number. A violation names the field and never
    /// reaches storage.
    pub fn validate(&self) -> (r: Result<bool, DetailFailure>)
        ensures
            r is Ok <==> valid_table_number(self.table_number),
            r matches Ok(b) ==> b == true,
            !valid_table_number(self.table_number) ==> (r matches Err(
                DetailFailure::InvalidInput(b),
            ) && b.error == true && b.message@ == "table_number must be in range of 1 to 100"@),
    {
        if self.table_number < 1 || self.table_number > 100 {
            return Err(
                DetailFailure::InvalidInput(
                    BadRequestBody {
                        error: true,
                        message: String::from_str("table_number must be in range of 1 to 100"),
                    },
                ),
            );
        }
        Ok(true)
    }
}

/// The body of a successful delete response: the removed identifier.
pub struct SuccessResponseBody {
    pub order_id: i64,
}

/// Delete the order scoped to table and identifier. `None` means no row
/// matched: a successful "not found" outcome, which repeating a delete
/// always reaches. A validation failure short-circuits before any storage
/// call; a storage failure is terminal and its cause is never exposed.
pub fn handler<S: OrderRepository>(store: &mut S, path: PathParams) -> (r: Result<
    Option<SuccessResponseBody>,
    DetailFailure,
>)
    requires
        old(store).inv(),
    ensures
        final(store).inv(),
        final(store).menu_rows() == old(store).menu_rows(),
        (r matches Err(DetailFailure::InvalidInput(_))) <==> !valid_table_number(path.table_number),
        !valid_table_number(path.table_number) ==> (r matches Err(DetailFailure::InvalidInput(b))
            && b.error == true && b.message@ == "table_number must be in range of 1 to 100"@
            && *final(store) == *old(store)),
        r matches Ok(Some(b)) ==> {
            &&& b.order_id == path.order_id as i64
            &&& exists|i: int|
                0 <= i < old(store).orders().len() && row_matches(
                    #[trigger] old(store).orders()[i],
                    path.table_number as int,
                    path.order_id as int,
                ) && final(store).orders() == old(store).orders().remove(i)
        },
        r matches Ok(None) ==> {
            &&& final(store).orders() == old(store).orders()
            &&& forall|i: int|
                0 <= i < old(store).orders().len() ==> !row_matches(
                    #[trigger] old(store).orders()[i],
                    path.table_number as int,
                    path.order_id as int,
                )
        },
        r matches Err(DetailFailure::InternalServerError(_)) ==> valid_table_number(
            path.table_number,
        ) && final(store).orders() == old(store).orders(),
{
    let input = Input::new(path.table_number, path.order_id);
    match input.validate() {
        Ok(_) => {},
        Err(f) => {
            return Err(f);
        },
    }
    let result_data = match store.delete_order(
        input.table_number as i32,
        input.order_id as i64,
    ) {
        Ok(v) => v,
        Err(e) => {
            return Err(DetailFailure::InternalServerError(e));
        },
    };
    match result_data {
        Some(order_id) => Ok(Some(SuccessResponseBody { order_id })),
        None => Ok(None),
    }
}

} // verus!
