pub mod jwt_model;
