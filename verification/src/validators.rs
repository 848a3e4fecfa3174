pub mod parameter;
pub mod request;
pub mod response;

pub use parameter::{ParameterValidator, ParametersValidator};
pub use request::RequestBodyValidator;
pub use response::ResponseValidator;
