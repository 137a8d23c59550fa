//! Caller-side settings: the current session id, the list filter, the sort
//! order, and the window placement the desktop shell remembers.
//!
//! Persistence of these settings (environment files, config directories) is
//! the caller's concern; this module holds the values and their small
//! parsing rules.

use crate::text::str_eq;
use vstd::prelude::*;

verus! {

/// The order in which a todo list is returned: one of the three date
/// columns, ascending or descending, each with a fixed secondary column
/// breaking ties.
#[derive(Debug, Clone, Copy, PartialEq, Eq, Structural)]
pub enum ItemSortOrder {
    StartAsc,
    StartDesc,
    EndAsc,
    EndDesc,
    UpdateAsc,
    UpdateDesc,
}

#[derive(Debug, Clone, Copy, PartialEq, Eq, Structural)]
pub enum ItemSortOrderParseError {
    InvalidArgument,
}

/// The name each sort order goes by at the boundary.
pub open spec fn spec_order_name(o: ItemSortOrder) -> Seq<char> {
    match o {
        ItemSortOrder::StartAsc => "StartAsc"@,
        ItemSortOrder::StartDesc => "StartDesc"@,
        ItemSortOrder::EndAsc => "EndAsc"@,
        ItemSortOrder::EndDesc => "EndDesc"@,
        ItemSortOrder::UpdateAsc => "UpdateAsc"@,
        ItemSortOrder::UpdateDesc => "UpdateDesc"@,
    }
}

/// What parsing a sort-order name yields: the matching variant, or the
/// parse error on any other text.
pub open spec fn spec_order_of(s: Seq<char>) -> Result<ItemSortOrder, ItemSortOrderParseError> {
    if s == "StartAsc"@ {
        Ok(ItemSortOrder::StartAsc)
    } else if s == "StartDesc"@ {
        Ok(ItemSortOrder::StartDesc)
    } else if s == "EndAsc"@ {
        Ok(ItemSortOrder::EndAsc)
    } else if s == "EndDesc"@ {
        Ok(ItemSortOrder::EndDesc)
    } else if s == "UpdateAsc"@ {
        Ok(ItemSortOrder::UpdateAsc)
    } else if s == "UpdateDesc"@ {
        Ok(ItemSortOrder::UpdateDesc)
    } else {
        Err(ItemSortOrderParseError::InvalidArgument)
    }
}

impl ItemSortOrder {
    /// Parse a sort order from its boundary name.
    pub fn from_str(s: &str) -> (r: Result<ItemSortOrder, ItemSortOrderParseError>)
        ensures
            r == spec_order_of(s@),
    {
        if str_eq(s, "StartAsc") {
            Ok(ItemSortOrder::StartAsc)
        } else if str_eq(s, "StartDesc") {
            Ok(ItemSortOrder::StartDesc)
        } else if str_eq(s, "EndAsc") {
            Ok(ItemSortOrder::EndAsc)
        } else if str_eq(s, "EndDesc") {
            Ok(ItemSortOrder::EndDesc)
        } else if str_eq(s, "UpdateAsc") {
            Ok(ItemSortOrder::UpdateAsc)
        } else if str_eq(s, "UpdateDesc") {
            Ok(ItemSortOrder::UpdateDesc)
        } else {
            Err(ItemSortOrderParseError::InvalidArgument)
        }
    }

    /// The boundary name of this sort order.
    pub fn as_str(&self) -> (r: &'static str)
        ensures
            r@ == spec_order_name(*self),
    {
        match self {
            ItemSortOrder::StartAsc => "StartAsc",
            ItemSortOrder::StartDesc => "StartDesc",
            ItemSortOrder::EndAsc => "EndAsc",
            ItemSortOrder::EndDesc => "EndDesc",
            ItemSortOrder::UpdateAsc => "UpdateAsc",
            ItemSortOrder::UpdateDesc => "UpdateDesc",
        }
    }
}

/// A remembered window position, in physical pixels.
#[derive(Debug, Clone, Copy, PartialEq, Eq, Structural)]
pub struct WinPos {
    pub x: i32,
    pub y: i32,
}

/// A remembered window size, in physical pixels.
#[derive(Debug, Clone, Copy, PartialEq, Eq, Structural)]
pub struct WinSize {
    pub width: i32,
    pub height: i32,
}

/// The application settings.  The `dirty` flag tracks whether a value that
/// belongs in the caller's settings file (the store coordinates or the
/// session id) has changed since it was last written out; writing the file
/// is the caller's task.
#[derive(Debug)]
pub struct NekoTodoConfig {
    pub db_host: String,
    pub db_user: String,
    pub db_pass: String,
    pub session_id: Option<u128>,
    pub dirty: bool,
    pub is_incomplete: bool,
    pub item_sort_order: ItemSortOrder,
    pub window_pos: Option<WinPos>,
    pub window_size: Option<WinSize>,
}

impl NekoTodoConfig {
    /// The starting settings: no store coordinates, no session, the
    /// incomplete-only listing, ascending end dates.
    pub fn new() -> (r: Self)
        ensures
            r.db_host@ == Seq::<char>::empty(),
            r.db_user@ == Seq::<char>::empty(),
            r.db_pass@ == Seq::<char>::empty(),
            r.session_id is None,
            !r.dirty,
            r.is_incomplete,
            r.item_sort_order == ItemSortOrder::EndAsc,
            r.window_pos is None,
            r.window_size is None,
    {
        NekoTodoConfig {
            db_host: String::new(),
            db_user: String::new(),
            db_pass: String::new(),
            session_id: None,
            dirty: false,
            is_incomplete: true,
            item_sort_order: ItemSortOrder::EndAsc,
            window_pos: None,
            window_size: None,
        }
    }

    pub fn get_db_host(&self) -> (r: &str)
        ensures
            r@ == self.db_host@,
    {
        self.db_host.as_str()
    }

    pub fn get_db_user(&self) -> (r: &str)
        ensures
            r@ == self.db_user@,
    {
        self.db_user.as_str()
    }

    pub fn get_db_pass(&self) -> (r: &str)
        ensures
            r@ == self.db_pass@,
    {
        self.db_pass.as_str()
    }

    pub fn get_session_id(&self) -> (r: Option<u128>)
        ensures
            r == self.session_id,
    {
        self.session_id
    }

    pub fn get_is_incomplete(&self) -> (r: bool)
        ensures
            r == self.is_incomplete,
    {
        self.is_incomplete
    }

    pub fn get_item_sort_order(&self) -> (r: ItemSortOrder)
        ensures
            r == self.item_sort_order,
    {
        self.item_sort_order
    }

    pub fn get_win_pos(&self) -> (r: Option<WinPos>)
        ensures
            r == self.window_pos,
    {
        self.window_pos
    }

    pub fn get_win_size(&self) -> (r: Option<WinSize>)
        ensures
            r == self.window_size,
    {
        self.window_size
    }

    /// Change the store host; the settings become dirty.
    pub fn set_db_host(&mut self, val: &str)
        ensures
            *final(self) == (NekoTodoConfig {
                db_host: final(self).db_host,
                dirty: true,
                ..*old(self)
            }),
            final(self).db_host@ == val@,
    {
        self.db_host = val.to_owned();
        self.dirty = true;
    }

    /// Change the store user; the settings become dirty.
    pub fn set_db_user(&mut self, val: &str)
        ensures
            *final(self) == (NekoTodoConfig {
                db_user: final(self).db_user,
                dirty: true,
                ..*old(self)
            }),
            final(self).db_user@ == val@,
    {
        self.db_user = val.to_owned();
        self.dirty = true;
    }

    /// Change the store password; the settings become dirty.
    pub fn set_db_pass(&mut self, val: &str)
        ensures
            *final(self) == (NekoTodoConfig {
                db_pass: final(self).db_pass,
                dirty: true,
                ..*old(self)
            }),
            final(self).db_pass@ == val@,
    {
        self.db_pass = val.to_owned();
        self.dirty = true;
    }

    /// Remember the (rotated) session id; the settings become dirty.
    pub fn set_session_id(&mut self, id: u128)
        ensures
            *final(self) == (NekoTodoConfig {
                session_id: Some(id),
                dirty: true,
                ..*old(self)
            }),
    {
        self.session_id = Some(id);
        self.dirty = true;
    }

    pub fn set_is_incomplete(&mut self, is_incomplete: bool)
        ensures
            *final(self) == (NekoTodoConfig { is_incomplete, ..*old(self) }),
    {
        self.is_incomplete = is_incomplete;
    }

    pub fn set_item_sort_order(&mut self, item_sort_order: ItemSortOrder)
        ensures
            *final(self) == (NekoTodoConfig { item_sort_order, ..*old(self) }),
    {
        self.item_sort_order = item_sort_order;
    }

    pub fn set_win_pos(&mut self, pos: WinPos)
        ensures
            *final(self) == (NekoTodoConfig { window_pos: Some(pos), ..*old(self) }),
    {
        self.window_pos = Some(pos);
    }

    pub fn set_win_size(&mut self, size: WinSize)
        ensures
            *final(self) == (NekoTodoConfig { window_size: Some(size), ..*old(self) }),
    {
        self.window_size = Some(size);
    }
}

} // verus!
