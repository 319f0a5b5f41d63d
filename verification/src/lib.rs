//! The logic of an HTTP client: which requests it makes, which URLs and which
//! proxy it uses, and how it takes part in an OAuth authorization callback.
//! Sockets, threads, futures and environment variables are left to the program
//! around it, which hands their values in and performs what is asked for.

pub mod client;
pub mod oauth;
pub mod page;
pub mod proxy;
pub mod redirect;
pub mod request;
pub mod server;
pub mod text;
pub mod urls;
pub mod web;

pub use client::{
    BlockedHttpClient, FakeHttpClient, HttpClient, HttpClientWithProxy, HttpClientWithUrl,
    HttpResponse, SendError, UrlError,
};
pub use oauth::{handle_oauth_callback_request, OAuthCallbackError, OAuthCallbackParams};
pub use page::{html_escape, oauth_callback_page};
pub use proxy::{read_no_proxy_from_env, read_proxy_from_env};
pub use redirect::{FollowRedirects, RedirectPolicy};
pub use request::{HttpRequest, HttpRequestExt, RequestError};
pub use server::start_oauth_callback_server;
