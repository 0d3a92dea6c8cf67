//! Typed bindings for SQL queries, derived from what the database reports
//! about a query: which parameters it takes and which columns it returns.
//!
//! A query site names a query, passes arguments and says what shape the rows
//! are to take. The database describes the query. From the two, this crate
//! generates a binding unit: the steps that bind the arguments in the order
//! of the protocol, and the steps that decode a row into a tuple or a record.
//! A site that does not fit the description is refused with a diagnostic.
//!
//! The crate does no input or output. Its caller reads query files and talks
//! to the database, and hands over what came back.
//!
//! - [`input`]: the query site; [`describe`]: the database's description.
//! - [`validate`]: whether the two fit.
//! - [`mapping`]: from database types to types of the target language.
//! - [`args`] and [`output`]: the two generators.
//! - [`expand`]: the whole way from site and reply to binding unit.
//! - [`diagnostic`]: failures and warnings; [`laws`]: what holds of every input.

pub mod args;
pub mod describe;
pub mod diagnostic;
pub mod expand;
pub mod input;
pub mod laws;
pub mod mapping;
pub mod output;
pub mod span;
pub mod text;
pub mod validate;

pub use expand::{
    describe_validate, expand_input, expand_query, expand_query_as, expand_query_file,
    expand_query_file_as, generate_binding, resolve, BindingUnit,
};
