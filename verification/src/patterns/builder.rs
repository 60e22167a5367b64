use vstd::prelude::*;

verus! {

/// The configured client that the builder produces: both settings are
/// present once `build` has succeeded.
#[derive(Debug)]
pub struct MySuperSdk {
    pub url: String,
    pub user_data: String,
}

impl MySuperSdk {
    /// A builder with nothing set yet.
    pub fn builder() -> (b: MySuperSdkBuilder)
        ensures
            b.url is None,
            b.user_data is None,
    {
        MySuperSdkBuilder { url: None, user_data: None }
    }
}

/// Collects the settings of a [`MySuperSdk`] one call at a time.
#[derive(Debug)]
pub struct MySuperSdkBuilder {
    pub url: Option<String>,
    pub user_data: Option<String>,
}

impl Default for MySuperSdkBuilder {
    fn default() -> (b: Self)
        ensures
            b.url is None,
            b.user_data is None,
    {
        MySuperSdkBuilder { url: None, user_data: None }
    }
}

impl MySuperSdkBuilder {
    pub fn new() -> (b: Self)
        ensures
            b.url is None,
            b.user_data is None,
    {
        Self::default()
    }

    /// Sets the URL, keeping every other setting.
    pub fn url(self, url: String) -> (b: Self)
        ensures
            b.url == Some(url),
            b.user_data == self.user_data,
    {
        Self { url: Some(url), ..self }
    }

    /// Sets the user data, keeping every other setting.
    pub fn user_data(self, user_data: String) -> (b: Self)
        ensures
            b.user_data == Some(user_data),
            b.url == self.url,
    {
        Self { user_data: Some(user_data), ..self }
    }

    /// Produces the client when both settings are present; otherwise
    /// names the first missing setting, the URL being checked first.
    pub fn build(self) -> (r: Result<MySuperSdk, String>)
        ensures
            match r {
                Ok(sdk) => self.url == Some(sdk.url) && self.user_data == Some(sdk.user_data),
                Err(e) => (self.url is None && e@ == "No Url Provided"@) || (self.url is Some
                    && self.user_data is None && e@ == "No User Data Provided"@),
            },
    {
        let url = match self.url {
            Some(u) => u,
            None => {
                return Err("No Url Provided".to_owned());
            },
        };
        let user_data = match self.user_data {
            Some(d) => d,
            None => {
                return Err("No User Data Provided".to_owned());
            },
        };
        Ok(MySuperSdk { url, user_data })
    }
}

} // verus!
