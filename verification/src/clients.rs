pub mod random_number_service;
