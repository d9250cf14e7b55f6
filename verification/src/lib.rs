//! Table-side food-ordering core: order lifecycle, input validation,
//! cook-time policy, repository contracts, pagination and the error
//! taxonomy that maps storage outcomes to client-visible results.

pub mod db;
pub mod order;
