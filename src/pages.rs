use vstd::prelude::*;

verus! {

/// The form that posts one file to the save route.
pub const UPLOAD_FORM_PAGE: &'static str = r###"
        <html lang="en">
        <head>
            <meta charset="UTF-8">
            <title>Poem Toy</title>
        </head>
        <body>
            <form action="/upload_save" enctype="multipart/form-data" method="post">
                <input type="file" name="upload" id="file">
                <button type="submit">Submit</button>
            </form>
        </body>
        </html>
        "###;

/// The page answered once a module-five form has been taken in.
pub const MODULE_FIVE_SUBMITTED_PAGE: &'static str = r###"
        <!DOCTYPE html>
        <html lang="en">
        <head>
            <title>Poem Toy</title>
            <meta charset="UTF-8">
        </head>
        <body>
            <p>Please give it a moment before going back to <a href="/module_five">/module_five</a></p>
        </body>
        </html>
        "###;

/// The files embedded in the server and served at the site root.
pub struct Files;

impl Files {
    /// The embedded file served for the site root.
    pub fn index_path() -> (r: &'static str)
        ensures
            r@ == "index.html"@,
    {
        "index.html"
    }
}

} // verus!
