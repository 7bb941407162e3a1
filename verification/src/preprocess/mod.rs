pub mod imagenet;
