pub mod subscriber;
pub mod subscriber_email;
pub mod subscriber_name;

pub use subscriber::NewSubscriber;
pub use subscriber_email::SubscriberEmail;
pub use subscriber_name::SubscriberName;
