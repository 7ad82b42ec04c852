//! Data records of the education factory: course templates, lessons,
//! exercises and course materials.

use vstd::prelude::*;

verus! {

/// A reusable course blueprint.
#[derive(Debug, Clone)]
pub struct CourseTemplate {
    pub id: String,
    pub name: String,
    pub description: String,
    pub category: String,
    pub difficulty: String,
    pub estimated_hours: u32,
    pub lessons: Vec<LessonTemplate>,
    pub prerequisites: Vec<String>,
    pub learning_outcomes: Vec<String>,
}

/// One lesson inside a course blueprint.
#[derive(Debug, Clone)]
pub struct LessonTemplate {
    pub title: String,
    pub duration_minutes: u32,
    pub topics: Vec<String>,
}

/// What a caller asks for when ordering a course.
#[derive(Debug, Clone)]
pub struct CourseCreationRequest {
    pub title: String,
    pub description: String,
    pub category: String,
    pub difficulty: String,
    pub lesson_count: usize,
    pub exercise_per_lesson: usize,
    pub include_certificate: bool,
}

/// One produced lesson.
#[derive(Debug, Clone)]
pub struct Lesson {
    pub id: String,
    pub title: String,
    pub content: String,
    pub duration_minutes: u32,
    pub order: u32,
    pub has_exercises: bool,
}

/// One produced exercise with its answer options.
#[derive(Debug, Clone)]
pub struct Exercise {
    pub id: String,
    pub lesson_id: String,
    pub question: String,
    pub options: Vec<String>,
    pub correct_answer: usize,
    pub difficulty: String,
    pub explanation: String,
}

/// Supporting material of a produced course.
#[derive(Debug, Clone)]
pub struct CourseMaterials {
    pub syllabus: String,
    pub reading_list: Vec<String>,
    pub slides: Vec<String>,
    pub projects: Vec<String>,
    pub certificate_template: String,
}

/// A lesson-producing capability and the topics it covers.
#[derive(Debug, Clone)]
pub struct LessonGenerator {
    pub id: String,
    pub name: String,
    pub supported_topics: Vec<String>,
}

/// An assessment capability and the question types it offers.
#[derive(Debug, Clone)]
pub struct AssessmentTool {
    pub id: String,
    pub name: String,
    pub question_types: Vec<String>,
}

} // verus!
