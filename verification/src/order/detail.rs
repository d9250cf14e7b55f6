//! Detail of an order: validate the table number and look the row up,
//! scoped to both table and identifier, joined with its menu name. Absence
//! is "not found", never an error.

use vstd::prelude::*;

use crate::db::OperationError;
use crate::db::order::{Order, Repository as OrderRepository, row_matches};
use crate::order::{
    BadRequestBody, ErrorResponseBody, InternalServerErrorBody, MenuData, OrderData,
    rendered_row, server_error_message, valid_table_number,
};

verus! {

/// The path parameters of a detail call.
pub struct PathParams {
    pub table_number: u32,
    pub order_id: u32,
}

/// How a detail call fails: an input violation carrying the client body, or
/// a storage failure whose cause is never exposed.
#[derive(Debug)]
pub enum DetailFailure {
    InvalidInput(BadRequestBody),
    InternalServerError(OperationError),
}

impl DetailFailure {
    /// The HTTP status of the failure: 400 for an input violation, 500 for
    /// a storage failure.
    pub fn status_code(&self) -> (r: u16)
        ensures
            r == match self {
                DetailFailure::InvalidInput(_) => 400u16,
                DetailFailure::InternalServerError(_) => 500u16,
            },
    {
        match self {
            DetailFailure::InvalidInput(_) => 400,
            DetailFailure::InternalServerError(_) => 500,
        }
    }

    /// The response body of the failure: the violation's own message for an
    /// input violation, the fixed generic body for a storage failure.
    pub fn error_body(&self) -> (r: ErrorResponseBody)
        ensures
            match self {
                DetailFailure::InvalidInput(b) => r matches ErrorResponseBody::Client(c)
                    && c.error == b.error && c.message@ == b.message@,
                DetailFailure::InternalServerError(_) => r matches ErrorResponseBody::Server(s)
                    && s.error == true && s.message@
                    == "An unknown server error has occurred, please try again later."@,
            },
    {
        match self {
            DetailFailure::InvalidInput(b) => ErrorResponseBody::Client(
                BadRequestBody { error: b.error, message: b.message.clone() },
            ),
            DetailFailure::InternalServerError(_) => ErrorResponseBody::Server(
                InternalServerErrorBody { error: true, message: server_error_message() },
            ),
        }
    }
}

/// The input of a detail call.
pub struct Input {
    pub table_number: u32,
    pub order_id: u32,
}

impl Input {
    pub fn new(path_params: PathParams) -> (r: Self)
        ensures
            r.table_number == path_params.table_number,
            r.order_id == path_params.order_id,
    {
        Input { table_number: path_params.table_number, order_id: path_params.order_id }
    }

    /// Range-check the table number. A violation names the field and never
    /// reaches storage.
    pub fn validate(self) -> (r: Result<Self, DetailFailure>)
        ensures
            r matches Ok(v) ==> v == self && valid_table_number(self.table_number),
            r is Ok <==> valid_table_number(self.table_number),
            !valid_table_number(self.table_number) ==> (r matches Err(
                DetailFailure::InvalidInput(b),
            ) && b.error == true && b.message@ == "table_number must be in range of 1 to 100"@),
    {
        if self.table_number < 1 || self.table_number > 100 {
            return Err(
                DetailFailure::InvalidInput(
                    BadRequestBody {
                        error: true,
                        message: String::from_str("table_number must be in range of 1 to 100"),
                    },
                ),
            );
        }
        Ok(self)
    }
}

/// The body of a successful detail response.
pub struct SuccessResponseBody {
    pub order: OrderData,
}

impl SuccessResponseBody {
    /// Render the joined row the lookup answered with.
    pub fn new(order: Order) -> (r: Self)
        ensures
            r.order.order_id == order.order_id,
            r.order.table_number == order.table_number,
            r.order.cook_time == order.cook_time,
            r.order.menu.id == order.menu_id as i64,
            r.order.menu.name@ == match order.name {
                Some(n) => n@,
                None => ""@,
            },
            r.order.created_at@ == crate::order::rfc3339_of(order.created_at as int)
                || r.order.created_at@ == "---"@,
            crate::order::rfc3339_in_range(order.created_at as int) ==> r.order.created_at@
                == crate::order::rfc3339_of(order.created_at as int),
    {
        let name = match &order.name {
            Some(n) => n.clone(),
            None => String::from_str(""),
        };
        SuccessResponseBody {
            order: OrderData {
                order_id: order.order_id,
                table_number: order.table_number,
                cook_time: order.cook_time,
                menu: MenuData { id: order.menu_id as i64, name },
                created_at: OrderData::format_time(order.created_at),
            },
        }
    }
}

/// Look an order up, scoped to table and identifier. `None` means no row
/// matched: a successful "not found" outcome. A validation failure
/// short-circuits before any storage call; a storage failure is terminal
/// and its cause is never exposed.
pub fn handler<S: OrderRepository>(store: &S, path: PathParams) -> (r: Result<
    Option<SuccessResponseBody>,
    DetailFailure,
>)
    requires
        store.inv(),
    ensures
        (r matches Err(DetailFailure::InvalidInput(_))) <==> !valid_table_number(path.table_number),
        !valid_table_number(path.table_number) ==> (r matches Err(DetailFailure::InvalidInput(b))
            && b.error == true && b.message@ == "table_number must be in range of 1 to 100"@),
        r matches Ok(Some(b)) ==> exists|i: int|
            0 <= i < store.orders().len() && row_matches(
                #[trigger] store.orders()[i],
                path.table_number as int,
                path.order_id as int,
            ) && rendered_row(b.order, store.orders()[i], store.menu_rows(), "---"@),
        r matches Ok(None) ==> forall|i: int|
            0 <= i < store.orders().len() ==> !row_matches(
                #[trigger] store.orders()[i],
                path.table_number as int,
                path.order_id as int,
            ),
        r matches Err(DetailFailure::InternalServerError(_)) ==> valid_table_number(
            path.table_number,
        ),
{
    let input = match Input::new(path).validate() {
        Ok(v) => v,
        Err(f) => {
            return Err(f);
        },
    };
    let result_data = match store.get_order_detail(
        input.table_number as i32,
        input.order_id as i64,
    ) {
        Ok(v) => v,
        Err(e) => {
            return Err(DetailFailure::InternalServerError(e));
        },
    };
    match result_data {
        Some(order) => Ok(Some(SuccessResponseBody::new(order))),
        None => Ok(None),
    }
}

} // verus!
