//! The filter sets, one kind for each domain of values.

pub mod date;
pub mod datetime;
pub mod datetime_tz;
pub mod identifier;
pub mod number;
pub mod string;

pub use date::{DateFilter, DateFilterSet};
pub use datetime::{DateTimeFilter, DateTimeFilterSet};
pub use datetime_tz::{DateTimeTzFilter, DateTimeTzFilterSet};
pub use identifier::{UuidFilter, UuidFilterSet};
pub use number::{NumberFilter, NumberFilterSet};
pub use string::{StringFilter, StringFilterSet};
