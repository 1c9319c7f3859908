pub mod axum;
