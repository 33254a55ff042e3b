//! Bridge between direct chat conversations and a backend ticketing service:
//! command routing, ticket lifecycle, attachment normalisation and the
//! decisions of both relay directions.

mod text;
pub mod reply;
pub mod classify;
pub mod command;
pub mod attachment;
pub mod lifecycle;
pub mod inbound;
pub mod outbound;
