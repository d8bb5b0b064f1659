pub mod canvas;
pub mod capture;
pub mod gesture;
pub mod url;
