//! The filter tree: AND and OR nodes over conditions on one seed.
use vstd::prelude::*;

verus! {

/// A node of a filter: all children must hold, any child must hold, or one
/// condition.
pub enum FilterNode {
    And { conditions: Vec<FilterNode> },
    Or { conditions: Vec<FilterNode> },
    Condition(Box<FilterCondition>),
}

/// One condition on a seed. Day ranges are inclusive.
pub enum FilterCondition {
    /// Some day's luck, in thousandths, lies in `[min_luck, max_luck]`.
    DailyLuck { day_start: i32, day_end: i32, min_luck: i32, max_luck: i32 },
    /// Some cart day's cart stocks the item, at no more than `max_price`
    /// where one is given.
    CartItem { day_start: i32, day_end: i32, item_id: i32, max_price: Option<i32> },
    /// Some night has the named event; `"any"` takes every event.
    NightEvent { day_start: i32, day_end: i32, event_type: String },
    /// The numbered geode of the named kind yields one of the items.
    Geode { geode_number: i32, geode_type: String, target_items: Vec<i32> },
    /// Some day's dish of the day is the dish.
    DishOfDay { day_start: i32, day_end: i32, dish_id: i32 },
    /// Some day is followed by the named weather; `"any"` takes every
    /// weather but sun.
    Weather { day_start: i32, day_end: i32, weather_type: String },
    /// Some day's floors in `[floor_start, floor_end]` meet the wishes.
    MineFloor {
        day_start: i32,
        day_end: i32,
        floor_start: i32,
        floor_end: i32,
        no_monsters: bool,
        no_dark: bool,
        has_mushroom: bool,
    },
}

} // verus!
