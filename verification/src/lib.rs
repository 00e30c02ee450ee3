//! Line-protocol encoder for structured log records.
//!
//! A record is a measurement name, a run of tag pairs and a run of field
//! pairs. The encoder turns it into one line of text:
//!
//! ```text
//! measurement[,tag=value]* [field=value[,field=value]*]\n
//! ```
//!
//! Tags and fields are written by the same rules: an integer as its decimal
//! text and `i`, a boolean as `t` or `f`, a string between double quotes.
//! A line is built in one pass by [`TelegrafSocketSerializer`] and its two
//! handles, or all at once by [`encode_record`]. Where the line is sent is
//! read from an address by [`Endpoint`].

pub mod decimal;
pub mod drain;
pub mod error;
pub mod ser;
pub mod telegraf;
pub mod text;
pub mod value;

pub use drain::encode_record;
pub use error::{Error, FormatError};
pub use ser::{TelegrafSocketFieldSerializer, TelegrafSocketSerializer, TelegrafSocketTagSerializer};
pub use telegraf::{carrier_for_scheme, Carrier, Endpoint};
pub use value::{KeyValue, TypedValue};
