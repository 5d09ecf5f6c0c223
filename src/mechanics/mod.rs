//! The game mechanics: each one seeds a fresh generator from the world seed
//! and the day (or its own inputs) and consumes draws in the game's order.
pub mod cart_laws;
pub mod cart_tables;
pub mod daily_luck;
pub mod geodes;
pub mod hashing;
pub mod mine;
pub mod night_events;
pub mod traveling_cart;
pub mod weather;

pub use daily_luck::{daily_luck, dish_of_the_day};
pub use geodes::{next_geode_item, predict_geode_sequence, GeodeResult, GeodeType};
pub use mine::{
    check_mines_spot, check_mines_spot_at, find_dark_floors, find_monster_floors,
    find_mushroom_floors, get_floor_conditions, is_monster_floor, is_mushroom_floor,
    is_unusual_dark_floor, remixed_mines_chest, ChestItem, ChestItemType, FloorConditions,
};
pub use night_events::{find_night_events, night_event, NightEvent};
pub use traveling_cart::{
    cart_has_item, find_item_in_cart, get_cart_for_day, get_traveling_cart_stock, CartItem,
    CartObject,
};
pub use weather::{find_weather_days, weather_tomorrow, Weather};
