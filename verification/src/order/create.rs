//! Create an order: validate the inputs, draw a cook time, store the order
//! and answer with the stored row enriched with its menu name.

use vstd::prelude::*;

use crate::db::OperationError;
use crate::db::menu::{Menu, Repository as MenuRepository, menu_name_at};
use crate::db::order::{Order, Repository as OrderRepository};
use crate::order::{
    BadRequestBody, ErrorResponseBody, InternalServerErrorBody, MenuData, OrderData,
    rfc3339_in_range, rfc3339_of, server_error_message, valid_menu_id, valid_table_number,
};

verus! {

/// The lower and upper bound of the randomized cook time.
pub enum CookTimeBounds {
    Min,
    Max,
}

impl CookTimeBounds {
    /// The configuration key under which deployments override this bound.
    pub fn env_key(&self) -> (r: String)
        ensures
            r@ == match self {
                CookTimeBounds::Min => "COOK_TIME_MIN"@,
                CookTimeBounds::Max => "COOK_TIME_MAX"@,
            },
    {
        match self {
            CookTimeBounds::Min => String::from_str("COOK_TIME_MIN"),
            CookTimeBounds::Max => String::from_str("COOK_TIME_MAX"),
        }
    }

    /// The default value of this bound, used when no override is supplied.
    pub fn default_value(&self) -> (r: u16)
        ensures
            r == match self {
                CookTimeBounds::Min => 5u16,
                CookTimeBounds::Max => 15u16,
            },
    {
        match self {
            CookTimeBounds::Min => 5,
            CookTimeBounds::Max => 15,
        }
    }
}

/// Relies on rand's `Rng::gen_range` over an inclusive integer range: the
/// draw is uniform over the closed interval and panics only when the range
/// is empty.
#[verifier::external_body]
fn random_in_range(min: u16, max: u16) -> (r: u16)
    requires
        min <= max,
    ensures
        min <= r <= max,
{
    let mut rng = rand::thread_rng();
    rand::Rng::gen_range(&mut rng, min..=max)
}

/// The configured cook-time interval, each bound independently overridable.
pub struct CookTime {
    pub min: u16,
    pub max: u16,
}

impl CookTime {
    /// Draw a cook time uniformly from the closed interval.
    pub fn get_random(self) -> (r: u16)
        requires
            self.min <= self.max,
        ensures
            self.min <= r <= self.max,
    {
        random_in_range(self.min, self.max)
    }

    /// The interval with both bounds at their defaults.
    pub fn new() -> (r: Self)
        ensures
            r.min == 5u16,
            r.max == 15u16,
    {
        CookTime {
            min: CookTimeBounds::Min.default_value(),
            max: CookTimeBounds::Max.default_value(),
        }
    }

    /// The interval with explicitly supplied bounds.
    pub fn from_bounds(min: u16, max: u16) -> (r: Self)
        ensures
            r.min == min,
            r.max == max,
    {
        CookTime { min, max }
    }
}

/// The request body of a create call.
pub struct RequestBody {
    pub menu_id: u32,
}

/// The path parameters of a create call.
pub struct PathParams {
    pub table_number: u32,
}

/// How a create call fails: an input violation carrying the client body, or
/// a storage failure whose cause is never exposed.
#[derive(Debug)]
pub enum CreateFailure {
    InvalidInput(BadRequestBody),
    InternalServerError(OperationError),
}

impl CreateFailure {
    /// The HTTP status of the failure: 400 for an input violation, 500 for
    /// a storage failure.
    pub fn status_code(&self) -> (r: u16)
        ensures
            r == match self {
                CreateFailure::InvalidInput(_) => 400u16,
                CreateFailure::InternalServerError(_) => 500u16,
            },
    {
        match self {
            CreateFailure::InvalidInput(_) => 400,
            CreateFailure::InternalServerError(_) => 500,
        }
    }

    /// The response body of the failure: the violation's own message for an
    /// input violation, the fixed generic body for a storage failure.
    pub fn error_body(&self) -> (r: ErrorResponseBody)
        ensures
            match self {
                CreateFailure::InvalidInput(b) => r matches ErrorResponseBody::Client(c)
                    && c.error == b.error && c.message@ == b.message@,
                CreateFailure::InternalServerError(_) => r matches ErrorResponseBody::Server(s)
                    && s.error == true && s.message@
                    == "An unknown server error has occurred, please try again later."@,
            },
    {
        match self {
            CreateFailure::InvalidInput(b) => ErrorResponseBody::Client(
                BadRequestBody { error: b.error, message: b.message.clone() },
            ),
            CreateFailure::InternalServerError(_) => ErrorResponseBody::Server(
                InternalServerErrorBody { error: true, message: server_error_message() },
            ),
        }
    }
}

/// The validated input of a create call, with its cook time already drawn.
pub struct Input {
    pub table_number: u32,
    pub menu_id: u32,
    pub cook_time: u16,
}

impl Input {
    /// Assemble the input and draw the cook time, exactly once.
    pub fn new(rb: RequestBody, table_number: u32, cook_time: CookTime) -> (r: Self)
        requires
            cook_time.min <= cook_time.max,
        ensures
            r.table_number == table_number,
            r.menu_id == rb.menu_id,
            cook_time.min <= r.cook_time <= cook_time.max,
    {
        Input { table_number, cook_time: cook_time.get_random(), menu_id: rb.menu_id }
    }

    /// Range-check the inputs: the menu identifier first, then the table
    /// number. A violation names the field and never reaches storage.
    pub fn validate(&self) -> (r: Result<bool, CreateFailure>)
        ensures
            r is Ok <==> valid_menu_id(self.menu_id) && valid_table_number(self.table_number),
            r matches Ok(b) ==> b == true,
            !valid_menu_id(self.menu_id) ==> (r matches Err(CreateFailure::InvalidInput(b))
                && b.error == true && b.message@ == "menu_id must be in range of 5 to 10"@),
            valid_menu_id(self.menu_id) && !valid_table_number(self.table_number) ==> (r matches Err(
                CreateFailure::InvalidInput(b),
            ) && b.error == true && b.message@ == "table_number must be in range of 1 to 100"@),
    {
        if self.menu_id < 1 || self.menu_id > 10 {
            return Err(
                CreateFailure::InvalidInput(
                    BadRequestBody {
                        error: true,
                        message: String::from_str("menu_id must be in range of 5 to 10"),
                    },
                ),
            );
        }
        if self.table_number < 1 || self.table_number > 100 {
            return Err(
                CreateFailure::InvalidInput(
                    BadRequestBody {
                        error: true,
                        message: String::from_str("table_number must be in range of 1 to 100"),
                    },
                ),
            );
        }
        Ok(true)
    }
}

/// The body of a successful create response.
pub struct SuccessResponseBody {
    pub order: OrderData,
}

impl SuccessResponseBody {
    /// Render the stored order enriched with the menu it references.
    pub fn new(order: Order, menu: Menu) -> (r: Self)
        ensures
            r.order.order_id == order.order_id,
            r.order.table_number == order.table_number,
            r.order.cook_time == order.cook_time,
            r.order.menu.id == menu.id,
            r.order.menu.name@ == menu.name@,
            rfc3339_in_range(order.created_at as int) ==> r.order.created_at@ == rfc3339_of(
                order.created_at as int,
            ),
            r.order.created_at@ == rfc3339_of(order.created_at as int) || r.order.created_at@
                == "---"@,
    {
        SuccessResponseBody {
            order: OrderData {
                order_id: order.order_id,
                table_number: order.table_number,
                cook_time: order.cook_time,
                menu: MenuData { id: menu.id, name: menu.name },
                created_at: OrderData::format_time(order.created_at),
            },
        }
    }
}

/// A successful create against `prev`, leaving `cur`: exactly one new row
/// was inserted where creation order keeps it, carrying the validated
/// inputs, a cook time within the configured interval and an identifier no
/// earlier row carries; the response renders that row enriched with the
/// name its menu identifier points at.
pub open spec fn created_okay<S: OrderRepository + MenuRepository>(
    prev: S,
    cur: S,
    table_number: u32,
    menu_id: u32,
    cook: CookTime,
    resp: SuccessResponseBody,
) -> bool {
    exists|i: int, stored: Order|
        {
            &&& 0 <= i <= prev.orders().len()
            &&& cur.orders() == prev.orders().insert(i, stored)
            &&& stored.table_number == table_number as i32
            &&& stored.menu_id == menu_id as i32
            &&& cook.min <= stored.cook_time <= cook.max
            &&& (forall|j: int|
                0 <= j < prev.orders().len() ==> (#[trigger] prev.orders()[j]).order_id
                    != stored.order_id)
            &&& resp.order.order_id == stored.order_id
            &&& resp.order.table_number == stored.table_number
            &&& resp.order.cook_time == stored.cook_time
            &&& resp.order.menu.id == menu_id as i64
            &&& menu_name_at(cur.menus(), menu_id as int) == Some(resp.order.menu.name@)
            &&& (resp.order.created_at@ == rfc3339_of(stored.created_at as int)
                || resp.order.created_at@ == "---"@)
        }
}

/// Create an order: validate the inputs, draw a cook time, store the order
/// and enrich the stored row with its menu name. A validation failure
/// short-circuits before any storage call; a storage failure at either step
/// is terminal and its cause is never exposed.
pub fn handler<S: OrderRepository + MenuRepository>(
    store: &mut S,
    path: PathParams,
    body: RequestBody,
    cook: CookTime,
) -> (r: Result<SuccessResponseBody, CreateFailure>)
    requires
        old(store).inv(),
        cook.min <= cook.max,
    ensures
        final(store).inv(),
        (r matches Err(CreateFailure::InvalidInput(_))) <==> !(valid_menu_id(body.menu_id)
            && valid_table_number(path.table_number)),
        !valid_menu_id(body.menu_id) ==> (r matches Err(CreateFailure::InvalidInput(b))
            && b.error == true && b.message@ == "menu_id must be in range of 5 to 10"@
            && *final(store) == *old(store)),
        valid_menu_id(body.menu_id) && !valid_table_number(path.table_number) ==> (r matches Err(
            CreateFailure::InvalidInput(b),
        ) && b.error == true && b.message@ == "table_number must be in range of 1 to 100"@
            && *final(store) == *old(store)),
        r matches Ok(resp) ==> created_okay(
            *old(store),
            *final(store),
            path.table_number,
            body.menu_id,
            cook,
            resp,
        ),
        r matches Err(CreateFailure::InternalServerError(_)) ==> valid_menu_id(body.menu_id)
            && valid_table_number(path.table_number),
{
    let input = Input::new(body, path.table_number, cook);
    match input.validate() {
        Ok(_) => {},
        Err(f) => {
            return Err(f);
        },
    }
    let entity = Order::new(
        input.table_number as i32,
        input.menu_id as i32,
        input.cook_time as i32,
    );
    let stored = match store.create_order(entity) {
        Ok(o) => o,
        Err(e) => {
            return Err(CreateFailure::InternalServerError(e));
        },
    };
    let menu = match store.get_by_id(stored.menu_id as i64) {
        Ok(m) => m,
        Err(e) => {
            return Err(CreateFailure::InternalServerError(e));
        },
    };
    Ok(SuccessResponseBody::new(stored, menu))
}

} // verus!
