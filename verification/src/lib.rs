//! A small database-over-websocket toolkit, verified with Verus.
//!
//! - `sql_statements`: the SQL text of the browser store (CREATE TABLE,
//!   INSERT, UPDATE, SELECT, DELETE, swaps), with escaping of values.
//! - `data_structures`, `create_table`, `table_row`, `db_error`: the records
//!   that clients and the database server exchange, and the WHERE conditions
//!   they stand for.
//! - `message_struct`, `msg_builder`, `server_protocol`, `shared_api`: the
//!   messages around those records and what a client makes of a reply.
//! - `inbetween`: `id|payload` framing over a socket, the mock server's
//!   answers, and the table that hands each reply to the request it answers.
//! - `row_swap`, `socket_testing_table`, `store_steps`, `table_server`: the decisions of the server-side
//!   table operations.
//! - `error_stuff`, `shared_data`, `transport_data`, `transport_records`,
//!   `live_forever`, `practice`: smaller records and the text they display.
//! - `text`: decimal numbers, joining and quote doubling on strings.

pub mod create_table;
pub mod data_structures;
pub mod db_error;
pub mod error_stuff;
pub mod inbetween;
pub mod live_forever;
pub mod message_struct;
pub mod msg_builder;
pub mod practice;
pub mod row_swap;
pub mod server_protocol;
pub mod shared_api;
pub mod shared_data;
pub mod socket_testing_table;
pub mod sql_statements;
pub mod store_steps;
pub mod table_row;
pub mod table_server;
pub mod text;
pub mod transport_data;
pub mod transport_records;
