//! Menu repository: read-only lookup of a menu item by identifier.

use vstd::prelude::*;

use crate::db::OperationError;

verus! {

/// A purchasable item: identifier and display name. Read-only from this
/// core's perspective.
pub struct Menu {
    pub id: i64,
    pub name: String,
}

impl Menu {
    pub fn new(id: i64, name: String) -> (m: Menu)
        ensures
            m.id == id,
            m.name == name,
    {
        Menu { id, name }
    }
}

/// The name of the first menu row carrying `menu_id`, if any.
pub open spec fn menu_name_at(menus: Seq<Menu>, menu_id: int) -> Option<Seq<char>>
    decreases menus.len(),
{
    if menus.len() == 0 {
        None
    } else if menus[0].id == menu_id {
        Some(menus[0].name@)
    } else {
        menu_name_at(menus.drop_first(), menu_id)
    }
}

/// Menu repository abstraction. Implementations expose their menu table as
/// `menus()`; lookups answer against that view. A storage failure may occur
/// on any call, but a successful answer is always the first row carrying the
/// requested identifier, and an identifier that no row carries is never
/// answered successfully.
pub trait Repository: Sized {
    /// The menu rows the repository can see, in storage order.
    spec fn menus(&self) -> Seq<Menu>;

    /// Look a menu up by its identifier.
    fn get_by_id(&self, id: i64) -> (r: Result<Menu, OperationError>)
        ensures
            match r {
                Ok(m) => {
                    &&& m.id == id
                    &&& menu_name_at(self.menus(), id as int) == Some(m.name@)
                },
                Err(_) => true,
            },
            menu_name_at(self.menus(), id as int) is None ==> r is Err,
    ;
}

} // verus!
