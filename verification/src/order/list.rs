//! List the orders of one table: validate the table number, normalize the
//! pagination inputs and answer with the requested page, joined with menu
//! names and ordered by creation time ascending.

use vstd::prelude::*;

use crate::db::OperationError;
use crate::db::order::{Order, Repository as OrderRepository, filter_by_table, page_window};
use crate::order::{
    BadRequestBody, ErrorResponseBody, InternalServerErrorBody, MenuData, OrderData,
    order_data_of_row, rendered_row, server_error_message, valid_table_number,
};

verus! {

/// The page a listing answers when `page` was absent: the first.
pub open spec fn normalize_page(page: Option<u32>) -> u32 {
    match page {
        Some(p) => p,
        None => 0u32,
    }
}

/// The page width a listing uses: 5 when `limit` was absent, and 1 for a
/// supplied limit of 0, so that no page is zero-width.
pub open spec fn normalize_limit(limit: Option<u32>) -> u32 {
    match limit {
        Some(l) => if l == 0 {
            1u32
        } else {
            l
        },
        None => 5u32,
    }
}

/// A supplied limit of 0 behaves identically to a limit of 1: both
/// normalize to the same page width, so every listing answers the same
/// page of the same table.
pub proof fn lemma_limit_zero_like_one(rows: Seq<Order>, table_number: int, page: Option<u32>)
    ensures
        normalize_limit(Some(0u32)) == normalize_limit(Some(1u32)),
        page_window(
            filter_by_table(rows, table_number),
            normalize_page(page) as int,
            normalize_limit(Some(0u32)) as int,
        ) == page_window(
            filter_by_table(rows, table_number),
            normalize_page(page) as int,
            normalize_limit(Some(1u32)) as int,
        ),
{
}

/// An absent limit behaves identically to a limit of 5: both normalize to
/// the same page width, so every listing answers the same page of the same
/// table.
pub proof fn lemma_limit_absent_like_five(rows: Seq<Order>, table_number: int, page: Option<u32>)
    ensures
        normalize_limit(None) == normalize_limit(Some(5u32)),
        page_window(
            filter_by_table(rows, table_number),
            normalize_page(page) as int,
            normalize_limit(None) as int,
        ) == page_window(
            filter_by_table(rows, table_number),
            normalize_page(page) as int,
            normalize_limit(Some(5u32)) as int,
        ),
{
}

/// An absent page behaves identically to page 0: both normalize to the
/// first page, so every listing answers the same page of the same table.
pub proof fn lemma_page_absent_like_zero(rows: Seq<Order>, table_number: int, limit: Option<u32>)
    ensures
        normalize_page(None) == normalize_page(Some(0u32)),
        page_window(
            filter_by_table(rows, table_number),
            normalize_page(None) as int,
            normalize_limit(limit) as int,
        ) == page_window(
            filter_by_table(rows, table_number),
            normalize_page(Some(0u32)) as int,
            normalize_limit(limit) as int,
        ),
{
}

/// The path parameters of a list call.
pub struct PathParams {
    pub table_number: u32,
}

/// The query parameters of a list call; both are optional and normalized,
/// never rejected.
pub struct QueryParams {
    pub limit: Option<u32>,
    pub page: Option<u32>,
}

/// How a list call fails: an input violation carrying the client body, or a
/// storage failure whose cause is never exposed.
#[derive(Debug)]
pub enum ListFailure {
    InvalidInput(BadRequestBody),
    InternalServerError(OperationError),
}

impl ListFailure {
    /// The HTTP status of the failure: 400 for an input violation, 500 for
    /// a storage failure.
    pub fn status_code(&self) -> (r: u16)
        ensures
            r == match self {
                ListFailure::InvalidInput(_) => 400u16,
                ListFailure::InternalServerError(_) => 500u16,
            },
    {
        match self {
            ListFailure::InvalidInput(_) => 400,
            ListFailure::InternalServerError(_) => 500,
        }
    }

    /// The response body of the failure: the violation's own message for an
    /// input violation, the fixed generic body for a storage failure.
    pub fn error_body(&self) -> (r: ErrorResponseBody)
        ensures
            match self {
                ListFailure::InvalidInput(b) => r matches ErrorResponseBody::Client(c) && c.error
                    == b.error && c.message@ == b.message@,
                ListFailure::InternalServerError(_) => r matches ErrorResponseBody::Server(s)
                    && s.error == true && s.message@
                    == "An unknown server error has occurred, please try again later."@,
            },
    {
        match self {
            ListFailure::InvalidInput(b) => ErrorResponseBody::Client(
                BadRequestBody { error: b.error, message: b.message.clone() },
            ),
            ListFailure::InternalServerError(_) => ErrorResponseBody::Server(
                InternalServerErrorBody { error: true, message: server_error_message() },
            ),
        }
    }
}

/// The input of a list call, with pagination already normalized.
pub struct Input {
    pub table_number: u32,
    pub page: u32,
    pub limit: u32,
}

impl Input {
    /// Assemble the input, normalizing pagination: an absent page becomes
    /// 0, an absent limit becomes 5, a supplied limit of 0 is coerced to 1.
    pub fn new(path_params: PathParams, query_params: QueryParams) -> (r: Self)
        ensures
            r.table_number == path_params.table_number,
            r.page == normalize_page(query_params.page),
            r.limit == normalize_limit(query_params.limit),
            r.limit >= 1,
    {
        let page = match query_params.page {
            Some(p) => p,
            None => 0,
        };
        let limit = match query_params.limit {
            Some(l) => if l == 0 {
                1
            } else {
                l
            },
            None => 5,
        };
        Input { table_number: path_params.table_number, page, limit }
    }

    /// Range-check the table number. A violation names the field and never
    /// reaches storage.
    pub fn validate(&self) -> (r: Result<bool, ListFailure>)
        ensures
            r is Ok <==> valid_table_number(self.table_number),
            r matches Ok(b) ==> b == true,
            !valid_table_number(self.table_number) ==> (r matches Err(ListFailure::InvalidInput(b))
                && b.error == true && b.message@ == "table_number must be in range of 1 to 100"@),
    {
        if self.table_number < 1 || self.table_number > 100 {
            return Err(
                ListFailure::InvalidInput(
                    BadRequestBody {
                        error: true,
                        message: String::from_str("table_number must be in range of 1 to 100"),
                    },
                ),
            );
        }
        Ok(true)
    }
}

/// The body of a successful list response.
pub struct SuccessResponseBody {
    pub orders: Vec<OrderData>,
}

impl SuccessResponseBody {
    /// Render the joined rows the listing answered with, in order. An
    /// absent menu name becomes the empty string, and so does a timestamp
    /// that would not format.
    pub fn new(orders: Vec<Order>) -> (r: Self)
        ensures
            r.orders@.len() == orders@.len(),
            forall|i: int|
                0 <= i < orders@.len() ==> order_data_of_row(
                    #[trigger] r.orders@[i],
                    orders@[i],
                    ""@,
                ),
    {
        let mut order_list: Vec<OrderData> = Vec::new();
        let mut idx: usize = 0;
        while idx < orders.len()
            invariant
                idx <= orders.len(),
                order_list@.len() == idx as int,
                forall|i: int|
                    0 <= i < idx as int ==> order_data_of_row(
                        #[trigger] order_list@[i],
                        orders@[i],
                        ""@,
                    ),
            decreases orders.len() - idx,
        {
            let o = &orders[idx];
            let name = match &o.name {
                Some(n) => n.clone(),
                None => String::from_str(""),
            };
            let created_at = match crate::order::format_rfc3339(o.created_at) {
                Some(s) => s,
                None => String::from_str(""),
            };
            order_list.push(
                OrderData {
                    order_id: o.order_id,
                    table_number: o.table_number,
                    cook_time: o.cook_time,
                    menu: MenuData { id: o.menu_id as i64, name },
                    created_at,
                },
            );
            idx += 1;
        }
        SuccessResponseBody { orders: order_list }
    }
}

/// List the orders of one table, windowed by the normalized page and limit,
/// joined with menu names and ordered by creation time ascending. An empty
/// page is a successful outcome. A validation failure short-circuits before
/// any storage call; a storage failure is terminal and its cause is never
/// exposed.
pub fn handler<S: OrderRepository>(store: &S, path: PathParams, query: QueryParams) -> (r: Result<
    SuccessResponseBody,
    ListFailure,
>)
    requires
        store.inv(),
    ensures
        (r matches Err(ListFailure::InvalidInput(_))) <==> !valid_table_number(path.table_number),
        !valid_table_number(path.table_number) ==> (r matches Err(ListFailure::InvalidInput(b))
            && b.error == true && b.message@ == "table_number must be in range of 1 to 100"@),
        r matches Ok(resp) ==> {
            let win = page_window(
                filter_by_table(store.orders(), path.table_number as int),
                normalize_page(query.page) as int,
                normalize_limit(query.limit) as int,
            );
            &&& resp.orders@.len() == win.len()
            &&& forall|i: int|
                0 <= i < win.len() ==> rendered_row(
                    #[trigger] resp.orders@[i],
                    win[i],
                    store.menu_rows(),
                    ""@,
                )
        },
        r matches Err(ListFailure::InternalServerError(_)) ==> valid_table_number(
            path.table_number,
        ),
{
    let input = Input::new(path, query);
    match input.validate() {
        Ok(_) => {},
        Err(f) => {
            return Err(f);
        },
    }
    let rows = match store.list_by_table(input.table_number as i32, input.page, input.limit) {
        Ok(v) => v,
        Err(e) => {
            return Err(ListFailure::InternalServerError(e));
        },
    };
    Ok(SuccessResponseBody::new(rows))
}

} // verus!
