pub mod collectible;
pub mod enemy;
pub mod inventory;
pub mod player;
pub mod position;
pub mod stats;
pub mod wall;

pub use collectible::Collectible;
pub use enemy::Enemy;
pub use inventory::{Inventory, Item, ItemType};
pub use player::{Player, PlayerBuilder};
pub use position::Position;
pub use stats::Stats;
pub use wall::Wall;
