//! Typed query filters.
//!
//! A filter set holds the comparisons that a request asks of one field, in the
//! order in which they were given. The sets of a request compile into a
//! `sea_query` condition, and a [`QueryFilter`] adds paging and sorting to it.

pub mod backend;
pub mod filters;
pub mod ident;
pub mod predicate;
pub mod query;
pub mod read;
pub mod seaq;
pub mod temporal;
pub mod text;

pub use query::{Filter, Order, QueryFilter};
pub use seaq::{
    filtered_delete, filtered_select, group_condition, ApplyCond, ApplyConds, ApplyFilters, ToCond,
    ToFieldCond,
};
