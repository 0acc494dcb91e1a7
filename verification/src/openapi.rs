pub mod example_route;
