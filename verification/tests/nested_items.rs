use scrapely::fields::{extract_list_item_field, extract_optional_item_field, extract_text_field};
use scrapely::{ElementRef, ExtractionError, ItemTrait};
use scraper::Html;

#[derive(Debug, PartialEq)]
struct Comment {
    author: String,
    text: String,
    likes: i32,
}

impl ItemTrait for Comment {
    fn selector() -> &'static str {
        ".comment"
    }

    fn extract<E: ElementRef>(element: &E) -> Result<Self, ExtractionError> {
        let author = extract_text_field(element, "author", ".author")?;
        let text = extract_text_field(element, "text", ".text")?;
        let likes = extract_text_field(element, "likes", ".likes")?;
        Ok(Comment { author, text, likes })
    }
}

#[derive(Debug)]
struct Post {
    title: String,
    content: String,
    comments: Vec<Comment>,
}

impl ItemTrait for Post {
    fn selector() -> &'static str {
        ".post"
    }

    fn extract<E: ElementRef>(element: &E) -> Result<Self, ExtractionError> {
        let title = extract_text_field(element, "title", ".title")?;
        let content = extract_text_field(element, "content", ".content")?;
        let comments = extract_list_item_field(element, ".comment")?;
        Ok(Post { title, content, comments })
    }
}

#[test]
fn test_nested_items() {
    let html = Html::parse_document(
        r#"
        <div class="post">
            <h1 class="title">My Blog Post</h1>
            <p class="content">This is the content of my post.</p>
            <div class="comment">
                <span class="author">Alice</span>
                <span class="text">Great post!</span>
                <span class="likes">5</span>
            </div>
            <div class="comment">
                <span class="author">Bob</span>
                <span class="text">Thanks for sharing.</span>
                <span class="likes">3</span>
            </div>
        </div>
    "#,
    );

    let post = Post::extract(&html.root_element()).expect("Failed to extract post");

    assert_eq!(post.title, "My Blog Post");
    assert_eq!(post.content, "This is the content of my post.");
    assert_eq!(post.comments.len(), 2);

    assert_eq!(post.comments[0].author, "Alice");
    assert_eq!(post.comments[0].text, "Great post!");
    assert_eq!(post.comments[0].likes, 5);

    assert_eq!(post.comments[1].author, "Bob");
    assert_eq!(post.comments[1].text, "Thanks for sharing.");
    assert_eq!(post.comments[1].likes, 3);
}

#[derive(Debug)]
struct Author {
    name: String,
    bio: String,
}

impl ItemTrait for Author {
    fn selector() -> &'static str {
        ".author"
    }

    fn extract<E: ElementRef>(element: &E) -> Result<Self, ExtractionError> {
        let name = extract_text_field(element, "name", ".name")?;
        let bio = extract_text_field(element, "bio", ".bio")?;
        Ok(Author { name, bio })
    }
}

#[derive(Debug)]
struct AuthoredArticle {
    title: String,
    author: Option<Author>,
}

impl ItemTrait for AuthoredArticle {
    fn selector() -> &'static str {
        ".article"
    }

    fn extract<E: ElementRef>(element: &E) -> Result<Self, ExtractionError> {
        let title = extract_text_field(element, "title", ".title")?;
        let author = extract_optional_item_field(element, ".author");
        Ok(AuthoredArticle { title, author })
    }
}

#[test]
fn test_optional_nested_item() {
    let html_with_author = Html::parse_document(
        r#"
        <div class="article">
            <h1 class="title">Article Title</h1>
            <div class="author">
                <span class="name">John Doe</span>
                <span class="bio">Software developer</span>
            </div>
        </div>
    "#,
    );

    let article = AuthoredArticle::extract(&html_with_author.root_element())
        .expect("Failed to extract article");

    assert_eq!(article.title, "Article Title");
    assert!(article.author.is_some());
    assert_eq!(article.author.as_ref().unwrap().name, "John Doe");
    assert_eq!(article.author.as_ref().unwrap().bio, "Software developer");

    let html_without_author = Html::parse_document(
        r#"
        <div class="article">
            <h1 class="title">Article Title</h1>
        </div>
    "#,
    );

    let article = AuthoredArticle::extract(&html_without_author.root_element())
        .expect("Failed to extract article");

    assert_eq!(article.title, "Article Title");
    assert!(article.author.is_none());
}

#[derive(Debug, PartialEq)]
struct Reply {
    author: String,
    text: String,
}

impl ItemTrait for Reply {
    fn selector() -> &'static str {
        ".reply"
    }

    fn extract<E: ElementRef>(element: &E) -> Result<Self, ExtractionError> {
        let author = extract_text_field(element, "author", ".author")?;
        let text = extract_text_field(element, "text", ".text")?;
        Ok(Reply { author, text })
    }
}

#[derive(Debug)]
struct CommentWithReplies {
    author: String,
    text: String,
    replies: Vec<Reply>,
}

impl ItemTrait for CommentWithReplies {
    fn selector() -> &'static str {
        ".comment"
    }

    fn extract<E: ElementRef>(element: &E) -> Result<Self, ExtractionError> {
        let author = extract_text_field(element, "author", ".author")?;
        let text = extract_text_field(element, "text", ".text")?;
        let replies = extract_list_item_field(element, ".reply")?;
        Ok(CommentWithReplies { author, text, replies })
    }
}

#[derive(Debug)]
struct Thread {
    title: String,
    comments: Vec<CommentWithReplies>,
}

impl ItemTrait for Thread {
    fn selector() -> &'static str {
        ".thread"
    }

    fn extract<E: ElementRef>(element: &E) -> Result<Self, ExtractionError> {
        let title = extract_text_field(element, "title", ".title")?;
        let comments = extract_list_item_field(element, ".comment")?;
        Ok(Thread { title, comments })
    }
}

#[test]
fn test_deeply_nested_items() {
    let html = Html::parse_document(
        r#"
        <div class="thread">
            <h1 class="title">Discussion Thread</h1>
            <div class="comment">
                <span class="author">Alice</span>
                <span class="text">First comment</span>
                <div class="reply">
                    <span class="author">Bob</span>
                    <span class="text">Reply to Alice</span>
                </div>
                <div class="reply">
                    <span class="author">Charlie</span>
                    <span class="text">Another reply</span>
                </div>
            </div>
            <div class="comment">
                <span class="author">Dave</span>
                <span class="text">Second comment</span>
            </div>
        </div>
    "#,
    );

    let thread = Thread::extract(&html.root_element()).expect("Failed to extract thread");

    assert_eq!(thread.title, "Discussion Thread");
    assert_eq!(thread.comments.len(), 2);

    assert_eq!(thread.comments[0].author, "Alice");
    assert_eq!(thread.comments[0].replies.len(), 2);
    assert_eq!(thread.comments[0].replies[0].author, "Bob");

    assert_eq!(thread.comments[1].author, "Dave");
    assert_eq!(thread.comments[1].replies.len(), 0);
}
